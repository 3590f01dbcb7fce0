use pdrust::fx::{fx_add, fx_div, fx_mul, fx_neg, fx_sqrt_raw, fx_sub, SAT_MAX, SCALE};
use pdrust::mat3::Mat3x;
use pdrust::quat::Quatx;
use pdrust::vec3::Vec3x;

fn v(x: i64, y: i64, z: i64) -> Vec3x {
    Vec3x::new(x * SCALE, y * SCALE, z * SCALE)
}

#[test]
fn scalar_products_scale_back_down() {
    assert_eq!(fx_mul(1_500_000, 2_000_000), 3_000_000);
    assert_eq!(fx_mul(-1_500_000, 2_000_000), -3_000_000);
    assert_eq!(fx_mul(1_500_000, -2_000_000), -3_000_000);
    assert_eq!(fx_mul(-1_500_000, -2_000_000), 3_000_000);
    // a product below the resolution truncates toward zero from either side
    assert_eq!(fx_mul(1, 1), 0);
    assert_eq!(fx_mul(-1, 1), 0);
}

#[test]
fn scalar_quotients_truncate_toward_zero() {
    assert_eq!(fx_div(1_000_000, 3_000_000), 333_333);
    assert_eq!(fx_div(-1_000_000, 3_000_000), -333_333);
    assert_eq!(fx_div(1_000_000, -3_000_000), -333_333);
    assert_eq!(fx_div(7_000_000, 2_000_000), 3_500_000);
    // a zero divisor yields zero instead of failing
    assert_eq!(fx_div(5_000_000, 0), 0);
}

#[test]
fn scalar_sums_saturate_symmetrically() {
    assert_eq!(fx_add(SAT_MAX, 1), SAT_MAX);
    assert_eq!(fx_add(-SAT_MAX, -1), -SAT_MAX);
    assert_eq!(fx_sub(-SAT_MAX, 1), -SAT_MAX);
    assert_eq!(fx_neg(i64::MIN), SAT_MAX);
    assert_eq!(fx_neg(SAT_MAX), -SAT_MAX);
    assert_eq!(fx_add(40, 2), 42);
}

#[test]
fn square_roots_are_exact_floors() {
    assert_eq!(fx_sqrt_raw(0), 0);
    assert_eq!(fx_sqrt_raw(-5), 0);
    assert_eq!(fx_sqrt_raw(4), 2);
    assert_eq!(fx_sqrt_raw(99), 9);
    assert_eq!(fx_sqrt_raw(1_000_000_000_000), 1_000_000);
}

#[test]
fn vector_length_of_pythagorean_triple() {
    assert_eq!(v(3, 4, 0).length(), 5 * SCALE);
    assert_eq!(v(0, 0, 0).length(), 0);
    assert_eq!(v(-3, 0, 4).length(), 5 * SCALE);
}

#[test]
fn vector_dot_and_cross() {
    assert_eq!(v(1, 2, 3).dot(&v(4, 5, 6)), 32 * SCALE);
    let c = v(1, 0, 0).cross(&v(0, 1, 0));
    assert_eq!(c, v(0, 0, 1));
    let anti = v(0, 1, 0).cross(&v(1, 0, 0));
    assert_eq!(anti, v(0, 0, -1));
}

#[test]
fn vector_arithmetic() {
    assert_eq!(v(1, 2, 3).add(&v(4, 5, 6)), v(5, 7, 9));
    assert_eq!(v(4, 5, 6).sub(&v(1, 2, 3)), v(3, 3, 3));
    assert_eq!(v(1, -2, 3).neg(), v(-1, 2, -3));
    assert_eq!(v(1, 2, 3).scale(2 * SCALE), v(2, 4, 6));
    assert_eq!(v(2, 4, 6).div_scalar(2 * SCALE), v(1, 2, 3));
}

#[test]
fn identity_rotation_keeps_vectors() {
    let q = Quatx::identity();
    let r = q.rotate(&v(1, 2, 3));
    assert_eq!(r, v(1, 2, 3));
}

#[test]
fn quarter_turn_about_vertical_axis() {
    // sin(45 degrees) and cos(45 degrees) in fixed point
    let q = Quatx::new(0, 0, 707_107, 707_107).normalize();
    let r = q.rotate(&v(1, 0, 0));
    assert!((r.x).abs() < 2_000, "x stays near zero: {}", r.x);
    assert!((r.y - SCALE).abs() < 2_000, "y near one: {}", r.y);
    assert_eq!(r.z, 0);
}

#[test]
fn normalization_lands_near_unit_length() {
    let q = Quatx::new(600_000, -300_000, 200_000, 1_300_000);
    let n = q.normalize();
    assert!((n.length() - SCALE).abs() <= 100, "length {}", n.length());
    // a zero quaternion has no direction and is left alone
    let z = Quatx::new(0, 0, 0, 0);
    assert_eq!(z.normalize(), z);
}

#[test]
fn matrix_inverse_of_diagonal() {
    let m = Mat3x::diagonal(2 * SCALE, 4 * SCALE, 5 * SCALE);
    let inv = m.inverse().expect("invertible");
    assert_eq!(inv, Mat3x::diagonal(500_000, 250_000, 200_000));
    assert!(Mat3x::zero().inverse().is_none());
}

#[test]
fn matrix_vector_product() {
    let m = Mat3x::diagonal(2 * SCALE, 3 * SCALE, 4 * SCALE);
    assert_eq!(m.mul_vec(&v(1, 1, 1)), v(2, 3, 4));
    let id = Mat3x::identity();
    assert_eq!(id.mul_vec(&v(7, -8, 9)), v(7, -8, 9));
}

#[test]
fn rotation_matrix_of_identity_orientation() {
    let m = Mat3x::from_quat(&Quatx::identity());
    assert_eq!(m, Mat3x::identity());
}
