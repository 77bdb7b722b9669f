//! A declarative 2D shape-composition algebra.
//!
//! Shapes are producers of finite, restartable sequences of renderable
//! triangles. Primitives (rectangles, textured rectangles) are wrapped by
//! structural combinators — translation, rotation about the origin, and
//! union — to arbitrary depth; flattening a composed shape yields its
//! triangles in a fully deterministic order. Coordinates are Q16.16
//! fixed-point numbers, so the effect of every combinator on every
//! coordinate is stated and proved exactly; only the trigonometric kernel
//! is delegated to an outside integer routine.

pub mod laws;
pub mod scalar;
pub mod shape;
pub mod tri;

pub use scalar::Point;
pub use scalar::Scalar;
pub use scalar::SCALAR_ONE;
pub use shape::Combine;
pub use shape::ImageRect;
pub use shape::image_rect;
pub use shape::Rect;
pub use shape::Rotate;
pub use shape::Shape;
pub use shape::Translate;
pub use shape::rect;
pub use tri::Color;
pub use tri::Positions;
pub use tri::RendTri;
pub use tri::Texture;
pub use tri::Tri;
