//! The triangle data model.
//!
//! A [`Tri`] is the atomic geometric unit: three space positions, three
//! texture coordinates, and a color. A [`RendTri`] pairs a triangle with an
//! optional texture handle; without one the triangle is flat-colored. All
//! of these are immutable value types: transforms build new values and
//! never touch their input.

use vstd::prelude::*;
use crate::scalar::Point;
use crate::scalar::Scalar;
use crate::scalar::SCALAR_ONE;
use crate::scalar::spec_point_add;
use crate::scalar::spec_point_rot;
use crate::scalar::point_add;
use crate::scalar::point_rot;

verus! {

/// An RGBA color, each channel a Q16.16 scalar, conventionally in [0, 1].
#[derive(Copy, Clone, Debug, PartialEq, Eq)]
pub struct Color {
    pub r: Scalar,
    pub g: Scalar,
    pub b: Scalar,
    pub a: Scalar,
}

impl Color {
    /// Opaque white: every channel at one.
    pub fn white() -> (c: Color)
        ensures
            c == (Color { r: SCALAR_ONE, g: SCALAR_ONE, b: SCALAR_ONE, a: SCALAR_ONE }),
    {
        Color { r: SCALAR_ONE, g: SCALAR_ONE, b: SCALAR_ONE, a: SCALAR_ONE }
    }
}

/// Exactly three 2D points, in a fixed caller-determined order. Used both
/// for a triangle's space positions and for its texture coordinates; the
/// order (the winding) is preserved by every transform.
#[derive(Copy, Clone, Debug, PartialEq, Eq)]
pub struct Positions(pub Point, pub Point, pub Point);

/// The componentwise translation of all three points by the vector `v`.
pub open spec fn spec_positions_add(ps: Positions, v: Point) -> Positions {
    Positions(
        spec_point_add(ps.0, v),
        spec_point_add(ps.1, v),
        spec_point_add(ps.2, v),
    )
}

/// The rotation of all three points about the origin, given the cosine and
/// sine of the angle.
pub open spec fn spec_positions_rot(ps: Positions, c: Scalar, s: Scalar) -> Positions {
    Positions(
        spec_point_rot(ps.0, c, s),
        spec_point_rot(ps.1, c, s),
        spec_point_rot(ps.2, c, s),
    )
}

/// One triangle's full shading-independent data.
#[derive(Copy, Clone, Debug, PartialEq, Eq)]
pub struct Tri {
    /// The three space vertices of the triangle.
    pub positions: Positions,
    /// The three texture coordinates of the vertices above.
    pub texcoords: Positions,
    /// The color of the triangle.
    pub color: Color,
}

impl Tri {
    /// Builds a triangle from its positions, texture coordinates and color.
    pub fn new(positions: Positions, texcoords: Positions, color: Color) -> (t: Tri)
        ensures
            t == (Tri { positions, texcoords, color }),
    {
        Tri { positions, texcoords, color }
    }

    /// Builds a flat white triangle: all texture coordinates at the origin,
    /// color opaque white.
    pub fn new_pos(positions: Positions) -> (t: Tri)
        ensures
            t.positions == positions,
            t.texcoords == (Positions(
                Point { x: 0, y: 0 },
                Point { x: 0, y: 0 },
                Point { x: 0, y: 0 },
            )),
            t.color == (Color { r: SCALAR_ONE, g: SCALAR_ONE, b: SCALAR_ONE, a: SCALAR_ONE }),
    {
        let origin = Point { x: 0, y: 0 };
        Tri { positions, texcoords: Positions(origin, origin, origin), color: Color::white() }
    }
}

/// A handle to a loaded image. The core never reads pixels: it only carries
/// the handle through to the renderer and reads the native size when a
/// textured rectangle is built. Two handles with the same identifier stand
/// for the same loaded image, so many triangles may share one image.
#[derive(Copy, Clone, Debug, PartialEq, Eq)]
pub struct Texture {
    /// Identifies the loaded image; equality of identifiers is identity of
    /// the image.
    pub id: u64,
    /// The image's native width in pixels.
    pub width: u32,
    /// The image's native height in pixels.
    pub height: u32,
}

/// A renderable triangle: one triangle plus its optional texture. Absence
/// of a texture means a flat-colored triangle.
#[derive(Copy, Clone, Debug, PartialEq, Eq)]
pub struct RendTri {
    pub tri: Tri,
    pub texture: Option<Texture>,
}

/// The renderable triangle with every position shifted by `v`; texture
/// coordinates, color and texture are untouched.
pub open spec fn spec_rend_translate(r: RendTri, v: Point) -> RendTri {
    RendTri {
        tri: Tri {
            positions: spec_positions_add(r.tri.positions, v),
            texcoords: r.tri.texcoords,
            color: r.tri.color,
        },
        texture: r.texture,
    }
}

/// The renderable triangle with every position rotated about the origin by
/// the angle whose cosine and sine are given; texture coordinates, color
/// and texture are untouched.
pub open spec fn spec_rend_rotate(r: RendTri, c: Scalar, s: Scalar) -> RendTri {
    RendTri {
        tri: Tri {
            positions: spec_positions_rot(r.tri.positions, c, s),
            texcoords: r.tri.texcoords,
            color: r.tri.color,
        },
        texture: r.texture,
    }
}

impl RendTri {
    /// Shifts every position by `v`, leaving all other fields unchanged.
    pub fn translated(self, v: Point) -> (r: RendTri)
        ensures
            r == spec_rend_translate(self, v),
    {
        RendTri {
            tri: Tri {
                positions: Positions(
                    point_add(self.tri.positions.0, v),
                    point_add(self.tri.positions.1, v),
                    point_add(self.tri.positions.2, v),
                ),
                texcoords: self.tri.texcoords,
                color: self.tri.color,
            },
            texture: self.texture,
        }
    }

    /// Rotates every position about the origin, leaving all other fields
    /// unchanged.
    pub fn rotated(self, c: Scalar, s: Scalar) -> (r: RendTri)
        ensures
            r == spec_rend_rotate(self, c, s),
    {
        RendTri {
            tri: Tri {
                positions: Positions(
                    point_rot(self.tri.positions.0, c, s),
                    point_rot(self.tri.positions.1, c, s),
                    point_rot(self.tri.positions.2, c, s),
                ),
                texcoords: self.tri.texcoords,
                color: self.tri.color,
            },
            texture: self.texture,
        }
    }
}

impl From<Tri> for RendTri {
    /// Wraps a bare triangle as a flat-colored renderable triangle.
    fn from(tri: Tri) -> (r: RendTri) {
        RendTri { tri, texture: None }
    }
}

impl vstd::std_specs::convert::FromSpecImpl<Tri> for RendTri {
    open spec fn obeys_from_spec() -> bool {
        true
    }

    open spec fn from_spec(tri: Tri) -> RendTri {
        RendTri { tri, texture: None }
    }
}

} // verus!
