//! Vector, ray and quaternion arithmetic at scalar precision.

use raytrace::fixed::ONE;
use raytrace::ray::Ray;
use raytrace::vec::Vec3;

/// `floor(sqrt(n))` for test expectations.
fn isqrt(n: u128) -> u128 {
    let mut lo: u128 = 0;
    let mut hi: u128 = 1 << 64;
    while lo + 1 < hi {
        let mid = lo + (hi - lo) / 2;
        if mid * mid <= n {
            lo = mid;
        } else {
            hi = mid;
        }
    }
    lo
}

fn s(x: i128) -> i128 {
    x * ONE
}

#[test]
fn vec_new() {
    let v = Vec3::new(s(1), s(4), s(2));
    assert_eq!(v._x, s(1));
    assert_eq!(v._y, s(4));
    assert_eq!(v._z, s(2));
}

#[test]
fn vec_length() {
    let v = Vec3::new(s(1), s(4), s(2));
    assert_eq!(v.length(), isqrt(21 * 65536 * 65536) as i128);
}

#[test]
fn length_squared() {
    let v = Vec3::new(s(1), s(4), s(2));
    assert_eq!(v.length_squared(), s(21));
}

#[test]
fn vec_normalize() {
    let v = Vec3::new(s(1), s(4), s(2)).normalize();
    let l = isqrt(21 * 65536u128 * 65536) as i128;
    assert_eq!(v._x, s(1) * 65536 / l);
    assert_eq!(v._y, s(4) * 65536 / l);
    assert_eq!(v._z, s(2) * 65536 / l);
}

#[test]
fn vec_neg() {
    let v = Vec3::new(s(1), s(4), s(2)).neg();
    assert_eq!(v._x, s(-1));
    assert_eq!(v._y, s(-4));
    assert_eq!(v._z, s(-2));
}

#[test]
fn vec_add() {
    let v = Vec3::new(s(1), s(4), s(2)).add(Vec3::new(s(3), s(5), s(-1)));
    assert_eq!(v._x, s(4));
    assert_eq!(v._y, s(9));
    assert_eq!(v._z, s(1));
    let v2 = Vec3::new(s(1), s(4), s(2)).add_scalar(s(5));
    assert_eq!(v2._x, s(6));
    assert_eq!(v2._y, s(9));
    assert_eq!(v2._z, s(7));
}

#[test]
fn vec_sub() {
    let v = Vec3::new(s(1), s(4), s(2)).sub(Vec3::new(s(3), s(5), s(-1)));
    assert_eq!(v._x, s(-2));
    assert_eq!(v._y, s(-1));
    assert_eq!(v._z, s(3));
    let v2 = Vec3::new(s(1), s(4), s(2)).sub_scalar(s(1));
    assert_eq!(v2._x, s(0));
    assert_eq!(v2._y, s(3));
    assert_eq!(v2._z, s(1));
}

#[test]
fn vec_mul() {
    let v = Vec3::new(s(1), s(4), s(2)).mul(Vec3::new(s(3), s(5), s(-1)));
    assert_eq!(v._x, s(3));
    assert_eq!(v._y, s(20));
    assert_eq!(v._z, s(-2));
    let v2 = Vec3::new(s(1), s(4), s(2)).scale(s(5));
    assert_eq!(v2._x, s(5));
    assert_eq!(v2._y, s(20));
    assert_eq!(v2._z, s(10));
}

#[test]
fn vec_div() {
    let v = Vec3::new(s(1), s(4), s(2)).div(Vec3::new(s(2), s(4), s(2)));
    assert_eq!(v._x, ONE / 2);
    assert_eq!(v._y, s(1));
    assert_eq!(v._z, s(1));
    let v2 = Vec3::new(s(1), s(4), s(2)).div_scalar(s(2));
    assert_eq!(v2._x, ONE / 2);
    assert_eq!(v2._y, s(2));
    assert_eq!(v2._z, s(1));
}

#[test]
fn vec_add_assign() {
    let mut v = Vec3::new(s(1), s(4), s(2));
    v.add_assign(Vec3::new(s(1), s(4), s(2)));
    assert_eq!(v._x, s(2));
    assert_eq!(v._y, s(8));
    assert_eq!(v._z, s(4));
    let v2 = Vec3::new(s(1), s(4), s(2)).add_scalar(s(2));
    assert_eq!(v2._x, s(3));
    assert_eq!(v2._y, s(6));
    assert_eq!(v2._z, s(4));
}

#[test]
fn vec_sub_assign() {
    let mut v = Vec3::new(s(1), s(4), s(2));
    v.sub_assign(Vec3::new(s(1), s(2), s(4)));
    assert_eq!(v._x, s(0));
    assert_eq!(v._y, s(2));
    assert_eq!(v._z, s(-2));
    let v2 = Vec3::new(s(1), s(4), s(2)).sub_scalar(s(1));
    assert_eq!(v2._x, s(0));
    assert_eq!(v2._y, s(3));
    assert_eq!(v2._z, s(1));
}

#[test]
fn vec_mul_assign() {
    let mut v = Vec3::new(s(1), s(4), s(2));
    v.mul_assign(Vec3::new(s(1), s(4), s(2)));
    assert_eq!(v._x, s(1));
    assert_eq!(v._y, s(16));
    assert_eq!(v._z, s(4));
    let v2 = Vec3::new(s(1), s(4), s(2)).scale(s(2));
    assert_eq!(v2._x, s(2));
    assert_eq!(v2._y, s(8));
    assert_eq!(v2._z, s(4));
}

#[test]
fn vec_div_assign() {
    let mut v = Vec3::new(s(1), s(4), s(2));
    v.div_assign(Vec3::new(s(2), s(2), s(2)));
    assert_eq!(v._x, ONE / 2);
    assert_eq!(v._y, s(2));
    assert_eq!(v._z, s(1));
    let v2 = Vec3::new(s(1), s(4), s(2)).div_scalar(s(2));
    assert_eq!(v2._x, ONE / 2);
    assert_eq!(v2._y, s(2));
    assert_eq!(v2._z, s(1));
}

#[test]
fn elements() {
    let v = Vec3::new(s(1), s(4), s(2));
    let e = v.elements();
    assert_eq!(e[0], s(1));
    assert_eq!(e[1], s(4));
    assert_eq!(e[2], s(2));
}

#[test]
fn from() {
    let v = Vec3::from([s(1), s(2), s(3)]);
    assert_eq!(v._x, s(1));
    assert_eq!(v._y, s(2));
    assert_eq!(v._z, s(3));
    let v = Vec3::from((s(1), s(2), s(3)));
    assert_eq!(v._x, s(1));
    assert_eq!(v._y, s(2));
    assert_eq!(v._z, s(3));
}

#[test]
fn vec_dot() {
    assert_eq!(Vec3::dot(Vec3::new(s(1), s(2), s(3)), Vec3::new(s(1), s(5), s(7))), s(32));
}

#[test]
fn vec_cross() {
    let v = Vec3::cross(Vec3::new(s(1), s(2), s(3)), Vec3::new(s(1), s(5), s(7)));
    assert_eq!(v._x, s(-1));
    assert_eq!(v._y, s(-4));
    assert_eq!(v._z, s(3));
}

#[test]
fn get_values() {
    let v = Vec3::new(s(1), s(2), s(3));
    assert_eq!(v.x(), s(1));
    assert_eq!(v.y(), s(2));
    assert_eq!(v.z(), s(3));
}

#[test]
fn set_values() {
    let mut v = Vec3::zero();
    v.set_x(s(1));
    v.set_y(s(2));
    v.set_z(s(3));
    assert_eq!(v.x(), s(1));
    assert_eq!(v.y(), s(2));
    assert_eq!(v.z(), s(3));
}

#[test]
fn vec3_simd_dot() {
    let v = Vec3::dot(Vec3::new(s(1), s(2), s(3)), Vec3::new(s(4), s(5), s(6)));
    assert_eq!(v, s(32));
}

#[test]
fn vec3_simd_cross() {
    let v = Vec3::cross(Vec3::new(s(1), s(2), s(3)), Vec3::new(s(1), s(5), s(7)));
    assert_eq!(v.x(), s(-1));
    assert_eq!(v.y(), s(-4));
    assert_eq!(v.z(), s(3));
}

#[test]
fn vec3_simd_length() {
    let v = Vec3::new(s(1), s(4), s(2));
    assert_eq!(v.length_squared(), s(21));
    assert_eq!(v.length(), isqrt(21 * 65536u128 * 65536) as i128);
}

#[test]
fn vec3_simd_normalize() {
    let v = Vec3::new(s(1), s(4), s(2)).normalize();
    let l = isqrt(21 * 65536u128 * 65536) as i128;
    assert_eq!(v.x(), s(1) * 65536 / l);
    assert_eq!(v.y(), s(4) * 65536 / l);
    assert_eq!(v.z(), s(2) * 65536 / l);
}

#[test]
fn eq() {
    let v1 = Vec3::new(s(1), s(2), s(3));
    assert_eq!(v1, v1);
    assert_ne!(v1, Vec3::new(s(1), s(1), s(9)));
}

#[test]
fn vec3_simd_neg() {
    let v = Vec3::new(s(1), s(4), s(2)).neg();
    assert_eq!(v.x(), s(-1));
    assert_eq!(v.y(), s(-4));
    assert_eq!(v.z(), s(-2));
}

#[test]
fn vec3_simd_add() {
    let v = Vec3::new(s(1), s(4), s(2)).add(Vec3::new(s(3), s(5), s(-1)));
    assert_eq!(v.x(), s(4));
    assert_eq!(v.y(), s(9));
    assert_eq!(v.z(), s(1));
    let v2 = Vec3::new(s(1), s(4), s(2)).add_scalar(s(5));
    assert_eq!(v2.x(), s(6));
    assert_eq!(v2.y(), s(9));
    assert_eq!(v2.z(), s(7));
}

#[test]
fn vec3_simd_sub() {
    let v = Vec3::new(s(1), s(4), s(2)).sub(Vec3::new(s(3), s(5), s(-1)));
    assert_eq!(v.x(), s(-2));
    assert_eq!(v.y(), s(-1));
    assert_eq!(v.z(), s(3));
    let v2 = Vec3::new(s(1), s(4), s(2)).sub_scalar(s(1));
    assert_eq!(v2.x(), s(0));
    assert_eq!(v2.y(), s(3));
    assert_eq!(v2.z(), s(1));
}

#[test]
fn vec3_simd_mul() {
    let v = Vec3::new(s(1), s(4), s(2)).mul(Vec3::new(s(3), s(5), s(-1)));
    assert_eq!(v.x(), s(3));
    assert_eq!(v.y(), s(20));
    assert_eq!(v.z(), s(-2));
    let v2 = Vec3::new(s(1), s(4), s(2)).scale(s(5));
    assert_eq!(v2.x(), s(5));
    assert_eq!(v2.y(), s(20));
    assert_eq!(v2.z(), s(10));
}

#[test]
fn vec3_simd_div() {
    let v = Vec3::new(s(1), s(4), s(2)).div(Vec3::new(s(2), s(4), s(2)));
    assert_eq!(v.x(), ONE / 2);
    assert_eq!(v.y(), s(1));
    assert_eq!(v.z(), s(1));
    let v2 = Vec3::new(s(1), s(4), s(2)).div_scalar(s(2));
    assert_eq!(v2.x(), ONE / 2);
    assert_eq!(v2.y(), s(2));
    assert_eq!(v2.z(), s(1));
}

#[test]
fn vec3_simd_add_assign() {
    let mut v = Vec3::new(s(1), s(4), s(2));
    v.add_assign(Vec3::new(s(1), s(4), s(2)));
    assert_eq!(v.x(), s(2));
    assert_eq!(v.y(), s(8));
    assert_eq!(v.z(), s(4));
    let v2 = Vec3::new(s(1), s(4), s(2)).add_scalar(s(2));
    assert_eq!(v2.x(), s(3));
    assert_eq!(v2.y(), s(6));
    assert_eq!(v2.z(), s(4));
}

#[test]
fn vec3_simd_sub_assign() {
    let mut v = Vec3::new(s(1), s(4), s(2));
    v.sub_assign(Vec3::new(s(1), s(2), s(4)));
    assert_eq!(v.x(), s(0));
    assert_eq!(v.y(), s(2));
    assert_eq!(v.z(), s(-2));
    let v2 = Vec3::new(s(1), s(4), s(2)).sub_scalar(s(1));
    assert_eq!(v2.x(), s(0));
    assert_eq!(v2.y(), s(3));
    assert_eq!(v2.z(), s(1));
}

#[test]
fn vec3_simd_mul_assign() {
    let mut v = Vec3::new(s(1), s(4), s(2));
    v.mul_assign(Vec3::new(s(1), s(4), s(2)));
    assert_eq!(v.x(), s(1));
    assert_eq!(v.y(), s(16));
    assert_eq!(v.z(), s(4));
    let v2 = Vec3::new(s(1), s(4), s(2)).scale(s(2));
    assert_eq!(v2.x(), s(2));
    assert_eq!(v2.y(), s(8));
    assert_eq!(v2.z(), s(4));
}

#[test]
fn vec3_simd_div_assign() {
    let mut v = Vec3::new(s(1), s(4), s(2));
    v.div_assign(Vec3::new(s(2), s(2), s(2)));
    assert_eq!(v.x(), ONE / 2);
    assert_eq!(v.y(), s(2));
    assert_eq!(v.z(), s(1));
    let v2 = Vec3::new(s(1), s(4), s(2)).div_scalar(s(2));
    assert_eq!(v2.x(), ONE / 2);
    assert_eq!(v2.y(), s(2));
    assert_eq!(v2.z(), s(1));
}

#[test]
fn ray_new() {
    let ray = Ray::new(Vec3::new(0, 0, 0), Vec3::new(s(4), s(4), s(4)));
    assert_eq!(ray.origin.x(), 0);
    assert_eq!(ray.origin.y(), 0);
    assert_eq!(ray.origin.z(), 0);
    assert_eq!(ray.direction.x(), s(4));
    assert_eq!(ray.direction.y(), s(4));
    assert_eq!(ray.direction.z(), s(4));
}

#[test]
fn point_at_parameter() {
    let ray = Ray::new(Vec3::new(0, 0, 0), Vec3::new(s(4), s(4), s(4)));
    let p = ray.point_at_parameter(0);
    assert_eq!(p.x(), 0);
    assert_eq!(p.y(), 0);
    assert_eq!(p.z(), 0);
    let p = ray.point_at_parameter(ONE / 2);
    assert_eq!(p.x(), s(2));
    assert_eq!(p.y(), s(2));
    assert_eq!(p.z(), s(2));
    let p = ray.point_at_parameter(s(1));
    assert_eq!(p.x(), s(4));
    assert_eq!(p.y(), s(4));
    assert_eq!(p.z(), s(4));
}
