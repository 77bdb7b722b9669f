//! Fixed-point scalars and 2D points.
//!
//! A [`Scalar`] is a signed 32-bit integer read as a Q16.16 fixed-point
//! number: the represented value is the integer divided by 2^16. Addition
//! and subtraction wrap on overflow, which keeps them total and exactly
//! associative; multiplication truncates the product toward zero and
//! saturates at the ends of the 32-bit range. The sine and cosine used for
//! rotation come from an outside fixed-point routine and are only named
//! here, never restated.

use vstd::prelude::*;

verus! {

/// A Q16.16 fixed-point number: the value is this integer divided by 2^16.
pub type Scalar = i32;

/// The number of fractional steps per unit: a `Scalar` holding this bit
/// pattern represents the value one.
pub const SCALAR_ONE: Scalar = 65536;

/// Wrapping fixed-point sum, as a mathematical function of the two operands.
pub open spec fn sadd(a: Scalar, b: Scalar) -> Scalar {
    vstd::wrapping::i32_specs::wrapping_add(a, b)
}

/// Wrapping fixed-point difference.
pub open spec fn ssub(a: Scalar, b: Scalar) -> Scalar {
    vstd::wrapping::i32_specs::wrapping_sub(a, b)
}

/// The fixed-point product before wrapping: the integer product scaled
/// back down by 2^16, truncated toward zero.
pub open spec fn smul_wide(a: int, b: int) -> int {
    if a * b >= 0 {
        (a * b) / 65536
    } else {
        -((-(a * b)) / 65536)
    }
}

/// Saturation of a wide intermediate into the 32-bit scalar range.
pub open spec fn ssat(wide: int) -> Scalar {
    if wide > i32::MAX {
        i32::MAX
    } else if wide < i32::MIN {
        i32::MIN
    } else {
        wide as Scalar
    }
}

/// Fixed-point product: scaled down, truncated toward zero, saturated at
/// the ends of the 32-bit range.
pub open spec fn smul(a: Scalar, b: Scalar) -> Scalar {
    ssat(smul_wide(a as int, b as int))
}

/// Adds two scalars, wrapping on overflow.
pub fn scalar_add(a: Scalar, b: Scalar) -> (r: Scalar)
    ensures
        r == sadd(a, b),
{
    a.wrapping_add(b)
}

/// Subtracts two scalars, wrapping on overflow.
pub fn scalar_sub(a: Scalar, b: Scalar) -> (r: Scalar)
    ensures
        r == ssub(a, b),
{
    a.wrapping_sub(b)
}

/// Multiplies two scalars in fixed point: the wide product is scaled back
/// down by 2^16, truncated toward zero, and saturated into range.
pub fn scalar_mul(a: Scalar, b: Scalar) -> (r: Scalar)
    ensures
        r == smul(a, b),
{
    let a64: i64 = a as i64;
    let b64: i64 = b as i64;
    proof {
        assert((a64 as int) * (b64 as int) <= 0x4000_0000_0000_0000
            && (a64 as int) * (b64 as int) >= -0x4000_0000_0000_0000) by (nonlinear_arith)
            requires
                -0x8000_0000 <= a64 as int <= 0x7FFF_FFFF,
                -0x8000_0000 <= b64 as int <= 0x7FFF_FFFF,
        ;
    }
    let p: i64 = a64 * b64;
    let q: i64 = if p >= 0 {
        ((p as u64) / 65536u64) as i64
    } else {
        -((((-p) as u64) / 65536u64) as i64)
    };
    assert(q == smul_wide(a as int, b as int));
    if q > 0x7FFF_FFFFi64 {
        i32::MAX
    } else if q < -0x8000_0000i64 {
        i32::MIN
    } else {
        q as Scalar
    }
}

/// Wrapping addition is exactly associative: grouping does not matter.
pub proof fn lemma_sadd_assoc(a: Scalar, b: Scalar, c: Scalar)
    ensures
        sadd(sadd(a, b), c) == sadd(a, sadd(b, c)),
{
}

/// Names the result of the outside fixed-point cosine routine. The routine
/// is a pure function of the angle's bit pattern alone.
pub uninterp spec fn cos_fixed(angle: Scalar) -> Scalar;

/// Names the result of the outside fixed-point sine routine.
pub uninterp spec fn sin_fixed(angle: Scalar) -> Scalar;

/// Relies on `cordic::cos` over `fixed::types::I16F16`: an iterative
/// integer routine whose result depends on the angle's bits alone.
#[verifier::external_body]
pub fn scalar_cos(angle: Scalar) -> (r: Scalar)
    ensures
        r == cos_fixed(angle),
{
    cordic::cos(fixed::types::I16F16::from_bits(angle)).to_bits()
}

/// Relies on `cordic::sin` over `fixed::types::I16F16`: an iterative
/// integer routine whose result depends on the angle's bits alone.
#[verifier::external_body]
pub fn scalar_sin(angle: Scalar) -> (r: Scalar)
    ensures
        r == sin_fixed(angle),
{
    cordic::sin(fixed::types::I16F16::from_bits(angle)).to_bits()
}

/// A point or vector in the plane, both coordinates in Q16.16 fixed point.
#[derive(Copy, Clone, Debug, PartialEq, Eq, Structural)]
pub struct Point {
    pub x: Scalar,
    pub y: Scalar,
}

/// The componentwise sum of a point and a vector.
pub open spec fn spec_point_add(p: Point, v: Point) -> Point {
    Point { x: sadd(p.x, v.x), y: sadd(p.y, v.y) }
}

/// Rotation of a point about the origin, given the cosine and sine of the
/// angle: the standard rotation matrix in fixed-point arithmetic.
pub open spec fn spec_point_rot(p: Point, c: Scalar, s: Scalar) -> Point {
    Point {
        x: ssub(smul(p.x, c), smul(p.y, s)),
        y: sadd(smul(p.x, s), smul(p.y, c)),
    }
}

impl Point {
    /// Builds the point with the given coordinates.
    pub fn new(x: Scalar, y: Scalar) -> (p: Point)
        ensures
            p == (Point { x, y }),
    {
        Point { x, y }
    }
}

/// Adds a vector to a point, componentwise.
pub fn point_add(p: Point, v: Point) -> (r: Point)
    ensures
        r == spec_point_add(p, v),
{
    Point { x: scalar_add(p.x, v.x), y: scalar_add(p.y, v.y) }
}

/// Rotates a point about the origin by the angle whose cosine and sine are
/// given.
pub fn point_rot(p: Point, c: Scalar, s: Scalar) -> (r: Point)
    ensures
        r == spec_point_rot(p, c, s),
{
    Point {
        x: scalar_sub(scalar_mul(p.x, c), scalar_mul(p.y, s)),
        y: scalar_add(scalar_mul(p.x, s), scalar_mul(p.y, c)),
    }
}

/// Vector addition is exactly associative, coordinate by coordinate.
pub proof fn lemma_point_add_assoc(p: Point, v1: Point, v2: Point)
    ensures
        spec_point_add(spec_point_add(p, v1), v2) == spec_point_add(
            p,
            spec_point_add(v1, v2),
        ),
{
    lemma_sadd_assoc(p.x, v1.x, v2.x);
    lemma_sadd_assoc(p.y, v1.y, v2.y);
}

} // verus!
