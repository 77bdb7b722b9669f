//! The algebra's laws.
//!
//! These proof functions state, over the same specifications the shape
//! contracts use, how the combinators relate to one another: union is
//! associative in the emitted sequence, composed translations collapse into
//! one translation of the summed vector, and the two transform combinators
//! touch nothing but positions. The numeric halves of the rotation laws —
//! that a zero angle is the identity and that two rotations compose into
//! one by the angle sum — rest on the values of the trigonometric kernel,
//! which is only named here, so they are not stated; what is stated holds
//! for every angle.

use vstd::prelude::*;
use crate::scalar::Point;
use crate::scalar::Scalar;
use crate::scalar::sadd;
use crate::scalar::spec_point_add;
use crate::scalar::cos_fixed;
use crate::scalar::sin_fixed;
use crate::scalar::lemma_point_add_assoc;
use crate::tri::Color;
use crate::tri::Positions;
use crate::tri::RendTri;
use crate::tri::Texture;
use crate::tri::spec_rend_rotate;
use crate::tri::spec_rend_translate;
use crate::shape::Combine;
use crate::shape::Rotate;
use crate::shape::Shape;
use crate::shape::Translate;

verus! {

/// Everything of a renderable triangle but its positions: texture
/// coordinates, color, and the texture reference.
pub open spec fn spec_attrs(r: RendTri) -> (Positions, Color, Option<Texture>) {
    (r.tri.texcoords, r.tri.color, r.texture)
}

/// Union is associative in the emitted sequence: grouping combines one way
/// or the other yields the same triangles in the same relative order.
pub proof fn lemma_combine_associative<A: Shape, B: Shape, C: Shape>(a: A, b: B, c: C)
    ensures
        (Combine { first: Combine { first: a, second: b }, second: c }).tris() == (Combine {
            first: a,
            second: Combine { first: b, second: c },
        }).tris(),
{
    assert((a.tris() + b.tris()) + c.tris() =~= a.tris() + (b.tris() + c.tris()));
}

/// A union emits exactly the triangles of both parts: its count is the sum
/// of the two counts.
pub proof fn lemma_combine_count<A: Shape, B: Shape>(a: A, b: B)
    ensures
        (Combine { first: a, second: b }).tris().len() == a.tris().len() + b.tris().len(),
{
}

/// Translation acts on each triangle independently and in order: the
/// wrapped sequence keeps its length, and the triangle at each index is the
/// inner one with every position shifted by the vector and nothing else
/// changed.
pub proof fn lemma_translate_pointwise<S: Shape>(s: S, v: Point)
    ensures
        (Translate { shape: s, vector: v }).tris().len() == s.tris().len(),
        forall|i: int|
            0 <= i < s.tris().len() ==> (Translate { shape: s, vector: v }).tris()[i]
                == spec_rend_translate(#[trigger] s.tris()[i], v),
{
}

/// Rotation acts on each triangle independently and in order, through the
/// named cosine and sine of the angle.
pub proof fn lemma_rotate_pointwise<S: Shape>(s: S, angle: Scalar)
    ensures
        (Rotate { shape: s, angle }).tris().len() == s.tris().len(),
        forall|i: int|
            0 <= i < s.tris().len() ==> (Rotate { shape: s, angle }).tris()[i]
                == spec_rend_rotate(#[trigger] s.tris()[i], cos_fixed(angle), sin_fixed(angle)),
{
}

/// Two translations collapse into one: translating by `v1` and then by `v2`
/// emits exactly the triangles of a single translation by `v1 + v2`.
/// Wrapping addition is associative, so this is an exact equality of
/// sequences, not an approximation.
pub proof fn lemma_translate_translate<S: Shape>(s: S, v1: Point, v2: Point)
    ensures
        (Translate { shape: Translate { shape: s, vector: v1 }, vector: v2 }).tris()
            == (Translate { shape: s, vector: spec_point_add(v1, v2) }).tris(),
{
    let lhs = (Translate { shape: Translate { shape: s, vector: v1 }, vector: v2 }).tris();
    let rhs = (Translate { shape: s, vector: spec_point_add(v1, v2) }).tris();
    assert forall|i: int| 0 <= i < lhs.len() implies lhs[i] == rhs[i] by {
        let t = s.tris()[i];
        lemma_point_add_assoc(t.tri.positions.0, v1, v2);
        lemma_point_add_assoc(t.tri.positions.1, v1, v2);
        lemma_point_add_assoc(t.tri.positions.2, v1, v2);
    };
    assert(lhs =~= rhs);
}

/// Translation commutes with union: translating a union emits exactly the
/// triangles of the union of the translated parts.
pub proof fn lemma_translate_of_combine<A: Shape, B: Shape>(a: A, b: B, v: Point)
    ensures
        (Translate { shape: Combine { first: a, second: b }, vector: v }).tris() == (Combine {
            first: Translate { shape: a, vector: v },
            second: Translate { shape: b, vector: v },
        }).tris(),
{
    let lhs = (Translate { shape: Combine { first: a, second: b }, vector: v }).tris();
    let rhs = (Combine {
        first: Translate { shape: a, vector: v },
        second: Translate { shape: b, vector: v },
    }).tris();
    assert forall|i: int| 0 <= i < lhs.len() implies lhs[i] == rhs[i] by {
        assert((a.tris() + b.tris())[i] == if i < a.tris().len() {
            a.tris()[i]
        } else {
            b.tris()[i - a.tris().len()]
        });
    };
    assert(lhs =~= rhs);
}

/// Rotation commutes with union in the same way.
pub proof fn lemma_rotate_of_combine<A: Shape, B: Shape>(a: A, b: B, angle: Scalar)
    ensures
        (Rotate { shape: Combine { first: a, second: b }, angle }).tris() == (Combine {
            first: Rotate { shape: a, angle },
            second: Rotate { shape: b, angle },
        }).tris(),
{
    let lhs = (Rotate { shape: Combine { first: a, second: b }, angle }).tris();
    let rhs = (Combine {
        first: Rotate { shape: a, angle },
        second: Rotate { shape: b, angle },
    }).tris();
    assert forall|i: int| 0 <= i < lhs.len() implies lhs[i] == rhs[i] by {
        assert((a.tris() + b.tris())[i] == if i < a.tris().len() {
            a.tris()[i]
        } else {
            b.tris()[i - a.tris().len()]
        });
    };
    assert(lhs =~= rhs);
}

/// Rotation by any angle leaves everything but positions exactly as it was:
/// texture coordinates, colors and texture references come through
/// unchanged, in order. In particular a rotation by zero can differ from
/// the original in positions alone.
pub proof fn lemma_rotate_keeps_attributes<S: Shape>(s: S, angle: Scalar)
    ensures
        (Rotate { shape: s, angle }).tris().map_values(|r: RendTri| spec_attrs(r)) == s.tris()
            .map_values(|r: RendTri| spec_attrs(r)),
{
    let lhs = (Rotate { shape: s, angle }).tris().map_values(|r: RendTri| spec_attrs(r));
    let rhs = s.tris().map_values(|r: RendTri| spec_attrs(r));
    assert(lhs =~= rhs);
}

/// Translation by any vector leaves everything but positions exactly as it
/// was.
pub proof fn lemma_translate_keeps_attributes<S: Shape>(s: S, v: Point)
    ensures
        (Translate { shape: s, vector: v }).tris().map_values(|r: RendTri| spec_attrs(r))
            == s.tris().map_values(|r: RendTri| spec_attrs(r)),
{
    let lhs = (Translate { shape: s, vector: v }).tris().map_values(|r: RendTri| spec_attrs(r));
    let rhs = s.tris().map_values(|r: RendTri| spec_attrs(r));
    assert(lhs =~= rhs);
}

/// Rotating twice and rotating once by the summed angle agree on
/// everything but positions: same count, and the same texture coordinates,
/// colors and texture references at every index. Whether the positions
/// agree as well rests on the trigonometric kernel's values and is not
/// stated here.
pub proof fn lemma_rotate_rotate_attributes<S: Shape>(s: S, a: Scalar, b: Scalar)
    ensures
        (Rotate { shape: Rotate { shape: s, angle: a }, angle: b }).tris().map_values(
            |r: RendTri| spec_attrs(r),
        ) == (Rotate { shape: s, angle: sadd(a, b) }).tris().map_values(
            |r: RendTri| spec_attrs(r),
        ),
{
    lemma_rotate_keeps_attributes(Rotate { shape: s, angle: a }, b);
    lemma_rotate_keeps_attributes(s, a);
    lemma_rotate_keeps_attributes(s, sadd(a, b));
}

} // verus!
