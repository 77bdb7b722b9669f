//! The shape capability and the structural combinators.
//!
//! A [`Shape`] is anything that can produce a finite sequence of renderable
//! triangles. The production is restartable: `triangles` takes the shape by
//! shared reference and always returns the sequence given by the pure
//! specification `tris`, so a shape can be drawn once per frame without
//! being consumed. Combinators wrap shapes by value and satisfy the
//! capability themselves, which lets them nest to any depth.

use vstd::prelude::*;
use crate::scalar::Point;
use crate::scalar::Scalar;
use crate::scalar::SCALAR_ONE;
use crate::scalar::ssat;
use crate::scalar::cos_fixed;
use crate::scalar::sin_fixed;
use crate::scalar::scalar_cos;
use crate::scalar::scalar_sin;
use crate::tri::Color;
use crate::tri::Positions;
use crate::tri::RendTri;
use crate::tri::Texture;
use crate::tri::Tri;
use crate::tri::spec_rend_rotate;
use crate::tri::spec_rend_translate;

verus! {

/// The capability of producing a finite, restartable sequence of renderable
/// triangles. Shapes are cheap value types: decorating one with a
/// combinator copies it, so the same shape can be decorated many times
/// independently.
pub trait Shape: Sized + Copy {
    /// The sequence of triangles this shape stands for.
    spec fn tris(&self) -> Seq<RendTri>;

    /// Produces the shape's triangles, in their deterministic emission
    /// order. Restartable: the shape is untouched and every call returns
    /// the same sequence.
    fn triangles(&self) -> (out: Vec<RendTri>)
        ensures
            out@ == self.tris(),
    ;

    /// Combines two shapes into one whose sequence is `self`'s triangles
    /// followed by `rhs`'s, with no reordering and no deduplication.
    fn combine<S2>(self, rhs: S2) -> (c: Combine<Self, S2>)
        ensures
            c == (Combine { first: self, second: rhs }),
    ;

    /// Wraps the shape so that every position of every triangle is shifted
    /// by `vector`; texture coordinates, color and texture are untouched.
    fn translate(&self, vector: Point) -> (t: Translate<Self>)
        ensures
            t == (Translate { shape: *self, vector }),
    {
        Translate { shape: *self, vector }
    }

    /// Wraps the shape so that every position of every triangle is rotated
    /// about the origin by `angle` (Q16.16 radians); texture coordinates,
    /// color and texture are untouched. Callers pivot about another point
    /// by translating before and after.
    fn rotate(&self, angle: Scalar) -> (t: Rotate<Self>)
        ensures
            t == (Rotate { shape: *self, angle }),
    {
        Rotate { shape: *self, angle }
    }
}

/// The union of two shapes: all of the first's triangles, then all of the
/// second's.
#[derive(Copy, Clone, Debug)]
pub struct Combine<A, B> {
    pub first: A,
    pub second: B,
}

impl<A: Shape, B: Shape> Shape for Combine<A, B> {
    open spec fn tris(&self) -> Seq<RendTri> {
        self.first.tris() + self.second.tris()
    }

    fn triangles(&self) -> (out: Vec<RendTri>)
        ensures
            out@ == self.tris(),
    {
        let mut out = self.first.triangles();
        let mut rest = self.second.triangles();
        out.append(&mut rest);
        out
    }

    fn combine<S2>(self, rhs: S2) -> (c: Combine<Self, S2>) {
        Combine { first: self, second: rhs }
    }
}

/// A shape shifted by a fixed vector.
#[derive(Copy, Clone, Debug)]
pub struct Translate<S> {
    pub shape: S,
    pub vector: Point,
}

impl<S: Shape> Shape for Translate<S> {
    open spec fn tris(&self) -> Seq<RendTri> {
        self.shape.tris().map_values(|r: RendTri| spec_rend_translate(r, self.vector))
    }

    fn triangles(&self) -> (out: Vec<RendTri>)
        ensures
            out@ == self.tris(),
    {
        let inner = self.shape.triangles();
        let mut out: Vec<RendTri> = Vec::new();
        let mut i: usize = 0;
        while i < inner.len()
            invariant
                i <= inner.len(),
                inner@ == self.shape.tris(),
                out@ == self.shape.tris().subrange(0, i as int).map_values(
                    |r: RendTri| spec_rend_translate(r, self.vector),
                ),
            decreases inner.len() - i,
        {
            out.push(inner[i].translated(self.vector));
            proof {
                assert(self.shape.tris().subrange(0, i + 1) =~= self.shape.tris().subrange(
                    0,
                    i as int,
                ).push(inner@[i as int]));
                assert(self.shape.tris().subrange(0, i + 1).map_values(
                    |r: RendTri| spec_rend_translate(r, self.vector),
                ) =~= self.shape.tris().subrange(0, i as int).map_values(
                    |r: RendTri| spec_rend_translate(r, self.vector),
                ).push(spec_rend_translate(inner@[i as int], self.vector)));
            }
            i += 1;
        }
        proof {
            assert(self.shape.tris().subrange(0, i as int) =~= self.shape.tris());
        }
        out
    }

    fn combine<S2>(self, rhs: S2) -> (c: Combine<Self, S2>) {
        Combine { first: self, second: rhs }
    }
}

/// A shape rotated about the origin by a fixed angle in Q16.16 radians.
#[derive(Copy, Clone, Debug)]
pub struct Rotate<S> {
    pub shape: S,
    pub angle: Scalar,
}

impl<S: Shape> Shape for Rotate<S> {
    open spec fn tris(&self) -> Seq<RendTri> {
        self.shape.tris().map_values(
            |r: RendTri| spec_rend_rotate(r, cos_fixed(self.angle), sin_fixed(self.angle)),
        )
    }

    fn triangles(&self) -> (out: Vec<RendTri>)
        ensures
            out@ == self.tris(),
    {
        let c = scalar_cos(self.angle);
        let s = scalar_sin(self.angle);
        let inner = self.shape.triangles();
        let mut out: Vec<RendTri> = Vec::new();
        let mut i: usize = 0;
        while i < inner.len()
            invariant
                i <= inner.len(),
                c == cos_fixed(self.angle),
                s == sin_fixed(self.angle),
                inner@ == self.shape.tris(),
                out@ == self.shape.tris().subrange(0, i as int).map_values(
                    |r: RendTri| spec_rend_rotate(r, cos_fixed(self.angle), sin_fixed(self.angle)),
                ),
            decreases inner.len() - i,
        {
            out.push(inner[i].rotated(c, s));
            proof {
                assert(self.shape.tris().subrange(0, i + 1) =~= self.shape.tris().subrange(
                    0,
                    i as int,
                ).push(inner@[i as int]));
                assert(self.shape.tris().subrange(0, i + 1).map_values(
                    |r: RendTri| spec_rend_rotate(r, cos_fixed(self.angle), sin_fixed(self.angle)),
                ) =~= self.shape.tris().subrange(0, i as int).map_values(
                    |r: RendTri| spec_rend_rotate(r, cos_fixed(self.angle), sin_fixed(self.angle)),
                ).push(spec_rend_rotate(inner@[i as int], cos_fixed(self.angle), sin_fixed(self.angle))));
            }
            i += 1;
        }
        proof {
            assert(self.shape.tris().subrange(0, i as int) =~= self.shape.tris());
        }
        out
    }

    fn combine<S2>(self, rhs: S2) -> (c: Combine<Self, S2>) {
        Combine { first: self, second: rhs }
    }
}

/// Two opposite corners make an axis-aligned rectangle. Either pair of
/// opposite corners may be given: the two triangles always cover the same
/// axis-aligned area.
#[derive(Copy, Clone, Debug, PartialEq, Eq)]
pub struct Rect(pub Point, pub Point);

/// The fixed diagonal split of the rectangle with corners `p0` and `p1`:
/// first the triangle over `(p0.x, p0.y)`, `(p1.x, p0.y)`, `(p0.x, p1.y)`,
/// then the one over `(p1.x, p1.y)`, `(p0.x, p1.y)`, `(p1.x, p0.y)`, in
/// that winding. Both are flat white: texture coordinates at the origin and
/// no texture.
pub open spec fn spec_rect_tris(p0: Point, p1: Point) -> Seq<RendTri> {
    let origin = Point { x: 0, y: 0 };
    let white = Color { r: SCALAR_ONE, g: SCALAR_ONE, b: SCALAR_ONE, a: SCALAR_ONE };
    seq![
        RendTri {
            tri: Tri {
                positions: Positions(
                    Point { x: p0.x, y: p0.y },
                    Point { x: p1.x, y: p0.y },
                    Point { x: p0.x, y: p1.y },
                ),
                texcoords: Positions(origin, origin, origin),
                color: white,
            },
            texture: None,
        },
        RendTri {
            tri: Tri {
                positions: Positions(
                    Point { x: p1.x, y: p1.y },
                    Point { x: p0.x, y: p1.y },
                    Point { x: p1.x, y: p0.y },
                ),
                texcoords: Positions(origin, origin, origin),
                color: white,
            },
            texture: None,
        },
    ]
}

impl Shape for Rect {
    open spec fn tris(&self) -> Seq<RendTri> {
        spec_rect_tris(self.0, self.1)
    }

    fn triangles(&self) -> (out: Vec<RendTri>)
        ensures
            out@ == self.tris(),
    {
        let first = Tri::new_pos(
            Positions(
                Point { x: self.0.x, y: self.0.y },
                Point { x: self.1.x, y: self.0.y },
                Point { x: self.0.x, y: self.1.y },
            ),
        );
        let second = Tri::new_pos(
            Positions(
                Point { x: self.1.x, y: self.1.y },
                Point { x: self.0.x, y: self.1.y },
                Point { x: self.1.x, y: self.0.y },
            ),
        );
        let mut out: Vec<RendTri> = Vec::new();
        out.push(RendTri::from(first));
        out.push(RendTri::from(second));
        proof {
            assert(out@ =~= spec_rect_tris(self.0, self.1));
        }
        out
    }

    fn combine<S2>(self, rhs: S2) -> (c: Combine<Self, S2>) {
        Combine { first: self, second: rhs }
    }
}

/// Takes two opposite corners and builds the rectangle on them.
pub fn rect(first: Point, second: Point) -> (r: Rect)
    ensures
        r == Rect(first, second),
{
    Rect(first, second)
}

/// A textured rectangle: one corner at the origin, the opposite corner at
/// `size`, covered by the texture's unit square.
#[derive(Copy, Clone, Debug, PartialEq, Eq)]
pub struct ImageRect {
    /// The corner opposite the origin: the requested width and the height
    /// derived from the texture's native aspect ratio.
    pub size: Point,
    /// The texture both triangles reference.
    pub texture: Texture,
}

/// The height that keeps the texture's native aspect ratio at the requested
/// width: `width` times native height over native width, truncated toward
/// zero.
pub open spec fn spec_image_height(width: Scalar, tex: Texture) -> Scalar
    recommends
        tex.width > 0,
{
    let wide = (width as int) * (tex.height as int);
    if wide >= 0 {
        ssat(wide / (tex.width as int))
    } else {
        ssat(-((-wide) / (tex.width as int)))
    }
}

/// The two triangles of the textured rectangle of the given size: the same
/// fixed diagonal split as a plain rectangle over the corners `(0, 0)` and
/// `size`, each position paired with the matching corner of the texture's
/// unit square, color opaque white, and both referencing the same texture.
pub open spec fn spec_image_rect_tris(size: Point, tex: Texture) -> Seq<RendTri> {
    let white = Color { r: SCALAR_ONE, g: SCALAR_ONE, b: SCALAR_ONE, a: SCALAR_ONE };
    seq![
        RendTri {
            tri: Tri {
                positions: Positions(
                    Point { x: 0, y: 0 },
                    Point { x: size.x, y: 0 },
                    Point { x: 0, y: size.y },
                ),
                texcoords: Positions(
                    Point { x: 0, y: 0 },
                    Point { x: SCALAR_ONE, y: 0 },
                    Point { x: 0, y: SCALAR_ONE },
                ),
                color: white,
            },
            texture: Some(tex),
        },
        RendTri {
            tri: Tri {
                positions: Positions(
                    Point { x: size.x, y: size.y },
                    Point { x: 0, y: size.y },
                    Point { x: size.x, y: 0 },
                ),
                texcoords: Positions(
                    Point { x: SCALAR_ONE, y: SCALAR_ONE },
                    Point { x: 0, y: SCALAR_ONE },
                    Point { x: SCALAR_ONE, y: 0 },
                ),
                color: white,
            },
            texture: Some(tex),
        },
    ]
}

impl Shape for ImageRect {
    open spec fn tris(&self) -> Seq<RendTri> {
        spec_image_rect_tris(self.size, self.texture)
    }

    fn triangles(&self) -> (out: Vec<RendTri>)
        ensures
            out@ == self.tris(),
    {
        let white = Color::white();
        let first = Tri::new(
            Positions(
                Point { x: 0, y: 0 },
                Point { x: self.size.x, y: 0 },
                Point { x: 0, y: self.size.y },
            ),
            Positions(
                Point { x: 0, y: 0 },
                Point { x: SCALAR_ONE, y: 0 },
                Point { x: 0, y: SCALAR_ONE },
            ),
            white,
        );
        let second = Tri::new(
            Positions(
                Point { x: self.size.x, y: self.size.y },
                Point { x: 0, y: self.size.y },
                Point { x: self.size.x, y: 0 },
            ),
            Positions(
                Point { x: SCALAR_ONE, y: SCALAR_ONE },
                Point { x: 0, y: SCALAR_ONE },
                Point { x: SCALAR_ONE, y: 0 },
            ),
            white,
        );
        let mut out: Vec<RendTri> = Vec::new();
        out.push(RendTri { tri: first, texture: Some(self.texture) });
        out.push(RendTri { tri: second, texture: Some(self.texture) });
        proof {
            assert(out@ =~= spec_image_rect_tris(self.size, self.texture));
        }
        out
    }

    fn combine<S2>(self, rhs: S2) -> (c: Combine<Self, S2>) {
        Combine { first: self, second: rhs }
    }
}

/// Builds the textured rectangle of the requested width whose height keeps
/// the texture's native aspect ratio. Both of its triangles reference the
/// given texture.
pub fn image_rect(tex: Texture, width: Scalar) -> (r: ImageRect)
    requires
        tex.width > 0,
    ensures
        r.texture == tex,
        r.size.x == width,
        r.size.y == spec_image_height(width, tex),
{
    proof {
        assert((width as int) * (tex.height as int) <= 0x7FFF_FFFF_FFFF_FFFF
            && (width as int) * (tex.height as int) >= -0x7FFF_FFFF_FFFF_FFFF) by (nonlinear_arith)
            requires
                -0x8000_0000 <= width as int <= 0x7FFF_FFFF,
                0 <= tex.height as int,
                (tex.height as int) < 0x1_0000_0000,
        ;
    }
    let wide: i64 = (width as i64) * (tex.height as i64);
    let w64: u64 = tex.width as u64;
    let q: i64 = if wide >= 0 {
        ((wide as u64) / w64) as i64
    } else {
        -((((-wide) as u64) / w64) as i64)
    };
    let height: Scalar = if q > 0x7FFF_FFFFi64 {
        i32::MAX
    } else if q < -0x8000_0000i64 {
        i32::MIN
    } else {
        q as Scalar
    };
    ImageRect { size: Point { x: width, y: height }, texture: tex }
}

} // verus!
