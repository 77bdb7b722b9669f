use nest::scalar::scalar_add;
use nest::scalar::scalar_cos;
use nest::scalar::scalar_mul;
use nest::scalar::scalar_sin;
use nest::scalar::scalar_sub;
use nest::scalar::point_add;
use nest::scalar::point_rot;
use nest::Point;
use nest::SCALAR_ONE;

fn fix(v: f64) -> i32 {
    (v * 65536.0).round() as i32
}

fn unfix(b: i32) -> f64 {
    (b as f64) / 65536.0
}

#[test]
fn addition_and_subtraction_are_exact() {
    assert_eq!(scalar_add(fix(1.5), fix(2.25)), fix(3.75));
    assert_eq!(scalar_sub(fix(1.5), fix(2.25)), fix(-0.75));
    assert_eq!(scalar_add(fix(-0.5), fix(0.1)), fix(-0.5) + fix(0.1));
}

#[test]
fn addition_wraps_at_the_ends_of_the_range() {
    assert_eq!(scalar_add(i32::MAX, 1), i32::MIN);
    assert_eq!(scalar_sub(i32::MIN, 1), i32::MAX);
}

#[test]
fn multiplication_is_exact_on_exact_products() {
    assert_eq!(scalar_mul(fix(2.0), fix(3.0)), fix(6.0));
    assert_eq!(scalar_mul(fix(1.5), fix(1.5)), fix(2.25));
    assert_eq!(scalar_mul(fix(-1.5), fix(1.5)), fix(-2.25));
    assert_eq!(scalar_mul(fix(-1.5), fix(-1.5)), fix(2.25));
    assert_eq!(scalar_mul(SCALAR_ONE, 12345), 12345);
    assert_eq!(scalar_mul(0, i32::MAX), 0);
}

#[test]
fn multiplication_truncates_toward_zero() {
    // 3 and 5 are tiny fixed-point values; their product rounds to zero
    // from either side.
    assert_eq!(scalar_mul(3, 5), 0);
    assert_eq!(scalar_mul(-3, 5), 0);
}

#[test]
fn multiplication_saturates_on_overflow() {
    assert_eq!(scalar_mul(fix(30000.0), fix(30000.0)), i32::MAX);
    assert_eq!(scalar_mul(fix(-30000.0), fix(30000.0)), i32::MIN);
}

#[test]
fn sine_and_cosine_match_the_real_functions() {
    for i in -20..=20 {
        let a = (i as f64) * 0.3;
        let c = scalar_cos(fix(a));
        let s = scalar_sin(fix(a));
        assert!((unfix(c) - a.cos()).abs() < 0.01, "cos at {}", a);
        assert!((unfix(s) - a.sin()).abs() < 0.01, "sin at {}", a);
    }
}

#[test]
fn point_operations_match_their_scalar_parts() {
    let p = Point { x: fix(1.0), y: fix(2.0) };
    let v = Point { x: fix(0.5), y: fix(-1.0) };
    assert_eq!(point_add(p, v), Point { x: fix(1.5), y: fix(1.0) });
    // A rotation with cosine one and sine zero is the identity.
    assert_eq!(point_rot(p, SCALAR_ONE, 0), p);
    // With cosine zero and sine one it is a quarter turn.
    assert_eq!(point_rot(p, 0, SCALAR_ONE), Point { x: fix(-2.0), y: fix(1.0) });
}
