//! Quaternion rotations over the fixed-point scalar.

use vstd::prelude::*;
use crate::fixed::{
    fits, sp_add, sp_sub, sp_mul, sp_div, sp_sqrt, fadd, fsub, fmul, fdiv, fneg, fsqrt, ONE,
};
use crate::vec::{
    Vec3, sp_vadd, sp_vsub, sp_vmul, sp_vdiv, sp_vscale, sp_vdiv_s, sp_vneg, sp_dot, sp_cross,
    sp_length_squared, sp_normalize, lemma_sq_nonneg, lemma_length_squared_nonneg,
};
use crate::util::{PI, HALF_PI};
use crate::approx::{sp_sin, sp_cos, sp_asin, sp_atan2, fsin, fcos, fasin, fatan2};

verus! {

/// A rotation stored as a scalar part and a vector part; rotations expect a
/// unit quaternion (the library does not normalize on its own).
#[derive(Clone, Copy, Debug, PartialEq, Eq, Structural)]
pub struct Quaternion {
    /// the scalar part of the quaternion
    pub s: i128,
    /// the vector part of the quaternion
    pub v: Vec3,
}

/// The squared length of a quaternion.
pub open spec fn sp_qlength_squared(q: Quaternion) -> int {
    sp_add(sp_mul(q.s as int, q.s as int), sp_length_squared(q.v))
}

/// The length of a quaternion.
pub open spec fn sp_qlength(q: Quaternion) -> int {
    sp_sqrt(sp_qlength_squared(q))
}

/// A vector rotated by a unit quaternion:
/// `v + 2 qv x (qv x v + s v)`.
#[verifier::opaque]
pub open spec fn sp_qrotate(q: Quaternion, rhs: Vec3) -> Vec3 {
    let tmp = sp_vadd(sp_cross(q.v, rhs), sp_vscale(rhs, q.s as int));
    sp_vadd(sp_vscale(sp_cross(q.v, tmp), 2 * ONE), rhs)
}

/// The Euler angles recovered from a quaternion: the arctangent formulas of
/// the rotation matrix entries, with a guard just under one half for the
/// poles.
pub open spec fn sp_to_eular(q: Quaternion) -> Vec3 {
    let sig = 32767;
    let qw = q.s as int;
    let qx = q.v._x as int;
    let qy = q.v._y as int;
    let qz = q.v._z as int;
    let sqw = sp_mul(qw, qw);
    let sqx = sp_mul(qx, qx);
    let sqy = sp_mul(qy, qy);
    let sqz = sp_mul(qz, qz);
    let unit = sp_add(sp_add(sp_add(sqx, sqz), sqy), sqw);
    let test = sp_add(sp_mul(qx, qz), sp_mul(qy, qw));
    if test > sp_mul(sig, unit) {
        Vec3 { _x: 0i128, _y: HALF_PI, _z: sp_mul(sp_atan2(qx, qw), 2 * ONE) as i128 }
    } else if test < -sp_mul(sig, unit) {
        Vec3 { _x: 0i128, _y: HALF_PI, _z: (-sp_mul(sp_atan2(qx, qw), 2 * ONE)) as i128 }
    } else {
        Vec3 {
            _x: sp_atan2(
                sp_mul(2 * ONE, sp_add(-sp_mul(qy, qz), sp_mul(qx, qw))),
                sp_sub(ONE as int, sp_mul(2 * ONE, sp_add(sqx, sqy))),
            ) as i128,
            _y: sp_asin(sp_mul(2 * ONE, sp_add(sp_mul(qx, qz), sp_mul(qy, qw)))) as i128,
            _z: sp_atan2(
                sp_mul(2 * ONE, sp_add(-sp_mul(qx, qy), sp_mul(qz, qw))),
                sp_sub(ONE as int, sp_mul(2 * ONE, sp_add(sqy, sqz))),
            ) as i128,
        }
    }
}

/// The quaternion built from Euler angles around the three axes.
pub open spec fn sp_from_eular(v: Vec3) -> Quaternion {
    let s_x = sp_sin(sp_div(v._x as int, 2 * ONE));
    let s_y = sp_sin(sp_div(v._y as int, 2 * ONE));
    let s_z = sp_sin(sp_div(v._z as int, 2 * ONE));
    let c_x = sp_cos(sp_div(v._x as int, 2 * ONE));
    let c_y = sp_cos(sp_div(v._y as int, 2 * ONE));
    let c_z = sp_cos(sp_div(v._z as int, 2 * ONE));
    Quaternion {
        s: sp_add(-sp_mul(sp_mul(s_x, s_y), s_z), sp_mul(sp_mul(c_x, c_y), c_z)) as i128,
        v: Vec3 {
            _x: sp_add(sp_mul(sp_mul(s_x, c_y), c_z), sp_mul(sp_mul(s_y, s_z), c_x)) as i128,
            _y: sp_add(-sp_mul(sp_mul(s_x, s_z), c_y), sp_mul(sp_mul(s_y, c_x), c_z)) as i128,
            _z: sp_add(sp_mul(sp_mul(s_x, s_y), c_z), sp_mul(sp_mul(s_z, c_x), c_y)) as i128,
        },
    }
}

/// A quaternion scaled to unit length by the reciprocal of its length.
pub open spec fn sp_qnormalize(q: Quaternion) -> Quaternion {
    let inv = sp_div(ONE as int, sp_qlength(q));
    Quaternion { s: sp_mul(q.s as int, inv) as i128, v: sp_vscale(q.v, inv) }
}

/// The normalized linear interpolation of two rotations.
pub open spec fn sp_nlerp(a: Quaternion, b: Quaternion, ammount: int) -> Quaternion {
    let m = Quaternion {
        s: sp_add(sp_mul(a.s as int, sp_sub(ONE as int, ammount)), sp_mul(b.s as int, ammount)) as i128,
        v: sp_vadd(sp_vscale(a.v, sp_sub(ONE as int, ammount)), sp_vscale(b.v, ammount)),
    };
    sp_qnormalize(m)
}

/// The rotation carrying direction `src` onto direction `dst`: identity
/// when they already agree (up to tolerance), a half turn about a fallback
/// axis when they oppose, and otherwise the quaternion built from the dot
/// and cross products.
pub open spec fn sp_from_arc(src: Vec3, dst: Vec3, fallback: Option<Vec3>) -> Quaternion {
    let length_avg = sp_sqrt(sp_mul(sp_length_squared(src), sp_length_squared(dst)));
    let d = sp_dot(src, dst);
    if crate::util::sp_approx_equal(d, length_avg) {
        Quaternion { s: ONE, v: Vec3 { _x: 0i128, _y: 0i128, _z: 0i128 } }
    } else if crate::util::sp_approx_equal(d, -length_avg) {
        let axis = match fallback {
            Option::Some(f) => f,
            Option::None => {
                let c = sp_cross(Vec3 { _x: ONE, _y: 0i128, _z: 0i128 }, src);
                let c2 = if crate::util::sp_approx_equal(sp_length_squared(c), 0) {
                    sp_cross(Vec3 { _x: 0i128, _y: ONE, _z: 0i128 }, src)
                } else {
                    c
                };
                sp_normalize(c2)
            },
        };
        sp_from_rotation_axis(axis, crate::util::PI as int)
    } else {
        Quaternion { s: sp_add(length_avg, d) as i128, v: sp_normalize(sp_cross(src, dst)) }
    }
}

/// The spherical linear interpolation of two unit rotations: below the
/// agreement threshold the angle between them is recovered and both are
/// weighted by sines of its fractions; near agreement it collapses to the
/// normalized linear interpolation.
pub open spec fn sp_slerp(a: Quaternion, b: Quaternion, ammount: int) -> Quaternion {
    let threshold: int = 65503;
    let d0 = sp_add(sp_mul(a.s as int, b.s as int), sp_dot(a.v, b.v));
    if d0 > threshold {
        sp_nlerp(a, b, ammount)
    } else {
        let d = if d0 > ONE {
            ONE as int
        } else if d0 < -ONE {
            -(ONE as int)
        } else {
            d0
        };
        let theta = sp_sub(crate::util::HALF_PI as int, sp_asin(d));
        let scale1 = sp_sin(sp_mul(theta, sp_sub(ONE as int, ammount)));
        let scale2 = sp_sin(sp_mul(theta, ammount));
        let st = sp_sin(theta);
        Quaternion {
            s: sp_mul(sp_add(sp_mul(a.s as int, scale1), sp_mul(b.s as int, scale2)), st) as i128,
            v: sp_vscale(sp_vadd(sp_vscale(a.v, scale1), sp_vscale(b.v, scale2)), st),
        }
    }
}

/// The quaternion of a rotation by `angle` about `axis`.
pub open spec fn sp_from_rotation_axis(axis: Vec3, angle: int) -> Quaternion {
    let half = sp_div(angle, 2 * ONE);
    let sin = sp_sin(half);
    let n = sp_normalize(axis);
    Quaternion { s: sp_cos(half) as i128, v: sp_vscale(n, sin) }
}

impl Quaternion {
    pub open spec fn wf(self) -> bool {
        fits(self.s as int) && self.v.wf()
    }

    /// A quaternion from a scalar and three imaginary components.
    pub fn new(s: i128, xi: i128, yk: i128, zi: i128) -> (q: Quaternion)
        requires
            fits(s as int),
            fits(xi as int),
            fits(yk as int),
            fits(zi as int),
        ensures
            q == (Quaternion { s, v: Vec3 { _x: xi, _y: yk, _z: zi } }),
            q.wf(),
    {
        Quaternion { s, v: Vec3 { _x: xi, _y: yk, _z: zi } }
    }

    /// A quaternion from a scalar and a vector.
    pub fn from_sv(s: i128, v: Vec3) -> (q: Quaternion)
        requires
            fits(s as int),
            v.wf(),
        ensures
            q == (Quaternion { s, v }),
            q.wf(),
    {
        Quaternion { s, v }
    }

    /// The zero quaternion.
    pub fn zero() -> (q: Quaternion)
        ensures
            q == (Quaternion { s: 0i128, v: Vec3 { _x: 0i128, _y: 0i128, _z: 0i128 } }),
            q.wf(),
    {
        Quaternion { s: 0, v: Vec3 { _x: 0, _y: 0, _z: 0 } }
    }

    /// The identity rotation.
    pub fn identity() -> (q: Quaternion)
        ensures
            q == (Quaternion { s: ONE, v: Vec3 { _x: 0i128, _y: 0i128, _z: 0i128 } }),
            q.wf(),
    {
        Quaternion { s: ONE, v: Vec3 { _x: 0, _y: 0, _z: 0 } }
    }

    /// The components as an array.
    pub fn elements(self) -> (r: [i128; 4])
        ensures
            r[0] == self.s,
            r[1] == self.v._x,
            r[2] == self.v._y,
            r[3] == self.v._z,
    {
        [self.s, self.v._x, self.v._y, self.v._z]
    }

    /// The four-component inner product of two quaternions.
    pub fn dot(self, other: Quaternion) -> (r: i128)
        requires
            self.wf(),
            other.wf(),
        ensures
            r == sp_add(sp_mul(self.s as int, other.s as int), sp_dot(self.v, other.v)),
            fits(r as int),
    {
        fadd(fmul(self.s, other.s), Vec3::dot(self.v, other.v))
    }

    /// The conjugate (the inverse rotation, for a unit quaternion).
    pub fn conjugate(self) -> (q: Quaternion)
        requires
            self.wf(),
        ensures
            q == (Quaternion { s: self.s, v: sp_vneg(self.v) }),
            q.wf(),
    {
        Quaternion { s: self.s, v: self.v.neg() }
    }

    /// The length of the quaternion.
    pub fn length(self) -> (r: i128)
        requires
            self.wf(),
        ensures
            r == sp_qlength(self),
            r >= 0,
            fits(r as int),
    {
        proof {
            lemma_sq_nonneg(self.s as int);
            lemma_length_squared_nonneg(self.v);
        }
        fsqrt(fadd(fmul(self.s, self.s), self.v.length_squared()))
    }

    /// The squared length of the quaternion.
    pub fn length_squared(self) -> (r: i128)
        requires
            self.wf(),
        ensures
            r == sp_qlength_squared(self),
            r >= 0,
            fits(r as int),
    {
        proof {
            lemma_sq_nonneg(self.s as int);
            lemma_length_squared_nonneg(self.v);
        }
        fadd(fmul(self.s, self.s), self.v.length_squared())
    }

    /// The quaternion scaled by the reciprocal of its length.
    pub fn normalize(&mut self) -> (q: Quaternion)
        requires
            old(self).wf(),
        ensures
            *final(self) == *old(self),
            q == (Quaternion {
                s: sp_mul(old(self).s as int, sp_div(ONE as int, sp_qlength(*old(self)))) as i128,
                v: sp_vscale(old(self).v, sp_div(ONE as int, sp_qlength(*old(self)))),
            }),
            q.wf(),
    {
        let length = fdiv(ONE, self.length());
        Quaternion {
            s: fmul(self.s, length),
            v: Vec3 {
                _x: fmul(self.v._x, length),
                _y: fmul(self.v._y, length),
                _z: fmul(self.v._z, length),
            },
        }
    }

    /// The Euler angles of this rotation, recovered from the quaternion with
    /// a guard near the poles.
    pub fn to_eular_angles(self) -> (r: Vec3)
        requires
            self.wf(),
        ensures
            r == sp_to_eular(self),
            r.wf(),
    {
        // the pole guard threshold, just under one half
        let sig: i128 = 32767;
        let qw = self.s;
        let qx = self.v._x;
        let qy = self.v._y;
        let qz = self.v._z;
        let sqw = fmul(qw, qw);
        let sqx = fmul(qx, qx);
        let sqy = fmul(qy, qy);
        let sqz = fmul(qz, qz);
        let unit = fadd(fadd(fadd(sqx, sqz), sqy), sqw);
        let test = fadd(fmul(qx, qz), fmul(qy, qw));
        if test > fmul(sig, unit) {
            Vec3::new(0, HALF_PI, fmul(fatan2(qx, qw), 2 * ONE))
        } else if test < fneg(fmul(sig, unit)) {
            Vec3::new(0, HALF_PI, fneg(fmul(fatan2(qx, qw), 2 * ONE)))
        } else {
            Vec3::new(
                fatan2(
                    fmul(2 * ONE, fadd(fneg(fmul(qy, qz)), fmul(qx, qw))),
                    fsub(ONE, fmul(2 * ONE, fadd(sqx, sqy))),
                ),
                fasin(fmul(2 * ONE, fadd(fmul(qx, qz), fmul(qy, qw)))),
                fatan2(
                    fmul(2 * ONE, fadd(fneg(fmul(qx, qy)), fmul(qz, qw))),
                    fsub(ONE, fmul(2 * ONE, fadd(sqy, sqz))),
                ),
            )
        }
    }

    /// The rotation by `angle` about `axis`.
    pub fn from_rotation_axis(axis: Vec3, angle: i128) -> (q: Quaternion)
        requires
            axis.wf(),
            fits(angle as int),
        ensures
            q == sp_from_rotation_axis(axis, angle as int),
            q.wf(),
    {
        let half = fdiv(angle, 2 * ONE);
        let sin = fsin(half);
        let axis = axis.normalize();
        let s = fcos(half);
        Quaternion {
            s,
            v: Vec3 {
                _x: fmul(axis._x, sin),
                _y: fmul(axis._y, sin),
                _z: fmul(axis._z, sin),
            },
        }
    }

    /// The rotation given by Euler angles around each axis.
    pub fn from_eular_angles(v: Vec3) -> (q: Quaternion)
        requires
            v.wf(),
        ensures
            q == sp_from_eular(v),
            q.wf(),
    {
        let s_x = fsin(fdiv(v._x, 2 * ONE));
        let s_y = fsin(fdiv(v._y, 2 * ONE));
        let s_z = fsin(fdiv(v._z, 2 * ONE));
        let c_x = fcos(fdiv(v._x, 2 * ONE));
        let c_y = fcos(fdiv(v._y, 2 * ONE));
        let c_z = fcos(fdiv(v._z, 2 * ONE));
        Quaternion::new(
            fadd(fneg(fmul(fmul(s_x, s_y), s_z)), fmul(fmul(c_x, c_y), c_z)),
            fadd(fmul(fmul(s_x, c_y), c_z), fmul(fmul(s_y, s_z), c_x)),
            fadd(fneg(fmul(fmul(s_x, s_z), c_y)), fmul(fmul(s_y, c_x), c_z)),
            fadd(fmul(fmul(s_x, s_y), c_z), fmul(fmul(s_z, c_x), c_y)),
        )
    }

    /// The rotation given by yaw, pitch and roll.
    pub fn from_yaw_pitch_roll(yaw: i128, pitch: i128, roll: i128) -> (q: Quaternion)
        requires
            fits(yaw as int),
            fits(pitch as int),
            fits(roll as int),
        ensures
            q == sp_from_eular(Vec3 { _x: pitch, _y: yaw, _z: roll }),
            q.wf(),
    {
        Self::from_eular_angles(Vec3::new(pitch, yaw, roll))
    }

    /// The rotation carrying direction `src` onto direction `dst`; the
    /// fallback axis is used when they are opposed.
    pub fn from_arc(src: Vec3, dst: Vec3, fallback: Option<Vec3>) -> (q: Quaternion)
        requires
            src.wf(),
            dst.wf(),
            fallback matches Option::Some(f) ==> f.wf(),
        ensures
            q == sp_from_arc(src, dst, fallback),
            q.wf(),
    {
        proof {
            lemma_length_squared_nonneg(src);
            lemma_length_squared_nonneg(dst);
            crate::fixed::lemma_sp_mul_bound(
                sp_length_squared(src),
                sp_length_squared(dst),
                crate::fixed::SAT as int,
                crate::fixed::SAT as int,
            );
            crate::fixed::lemma_sp_mul_nonneg(sp_length_squared(src), sp_length_squared(dst));
        }
        let length_avg = fsqrt(fmul(src.length_squared(), dst.length_squared()));
        let d = Vec3::dot(src, dst);
        if crate::util::approx_equal(d, length_avg) {
            Quaternion::identity()
        } else if crate::util::approx_equal(d, fneg(length_avg)) {
            let axis = match fallback {
                Option::Some(f) => f,
                Option::None => {
                    let mut v = Vec3::cross(Vec3::unit_x(), src);
                    if v.is_zero_length() {
                        v = Vec3::cross(Vec3::unit_y(), src);
                    }
                    v.normalize()
                },
            };
            Quaternion::from_rotation_axis(axis, PI)
        } else {
            Quaternion::from_sv(fadd(length_avg, d), Vec3::cross(src, dst).normalize())
        }
    }

    /// A normalized linear interpolation between two rotations.
    pub fn nlerp(self, other: Quaternion, ammount: i128) -> (q: Quaternion)
        requires
            self.wf(),
            other.wf(),
            fits(ammount as int),
        ensures
            q == sp_nlerp(self, other, ammount as int),
            q.wf(),
    {
        let mut m = self.mul_scalar(fsub(ONE, ammount)).add(other.mul_scalar(ammount));
        m.normalize()
    }

    /// A spherical linear interpolation between two unit rotations.
    pub fn slerp(self, other: Quaternion, ammount: i128) -> (q: Quaternion)
        requires
            self.wf(),
            other.wf(),
            fits(ammount as int),
        ensures
            q == sp_slerp(self, other, ammount as int),
            q.wf(),
    {
        // interpolation collapses to nlerp when the rotations nearly agree
        let threshold: i128 = 65503;
        let mut d = self.dot(other);
        if d > threshold {
            self.nlerp(other, ammount)
        } else {
            if d > ONE {
                d = ONE;
            } else if d < -ONE {
                d = -ONE;
            }
            let theta = fsub(HALF_PI, fasin(d));
            let scale1 = fsin(fmul(theta, fsub(ONE, ammount)));
            let scale2 = fsin(fmul(theta, ammount));
            self.mul_scalar(scale1).add(other.mul_scalar(scale2)).mul_scalar(fsin(theta))
        }
    }

    /// The vector rotated by this (unit) quaternion.
    pub fn rotate_vector(self, other: Vec3) -> (r: Vec3)
        requires
            self.wf(),
            other.wf(),
        ensures
            r == sp_qrotate(self, other),
            r.wf(),
    {
        self.mul_vec(other)
    }

    /// The rotation applied to a vector: `v + 2 qv x (qv x v + s v)`.
    pub fn mul_vec(self, rhs: Vec3) -> (r: Vec3)
        requires
            self.wf(),
            rhs.wf(),
        ensures
            r == sp_qrotate(self, rhs),
            r.wf(),
    {
        proof {
            reveal(sp_qrotate);
        }
        let tmp = Vec3::cross(self.v, rhs).add(rhs.scale(self.s));
        Vec3::cross(self.v, tmp).scale(2 * ONE).add(rhs)
    }

    pub fn neg(self) -> (q: Quaternion)
        requires
            self.wf(),
        ensures
            q == (Quaternion { s: (-(self.s as int)) as i128, v: sp_vneg(self.v) }),
            q.wf(),
    {
        Quaternion { s: fneg(self.s), v: self.v.neg() }
    }

    pub fn add(self, rhs: Quaternion) -> (q: Quaternion)
        requires
            self.wf(),
            rhs.wf(),
        ensures
            q == (Quaternion {
                s: sp_add(self.s as int, rhs.s as int) as i128,
                v: sp_vadd(self.v, rhs.v),
            }),
            q.wf(),
    {
        Quaternion::from_sv(fadd(self.s, rhs.s), self.v.add(rhs.v))
    }

    pub fn sub(self, rhs: Quaternion) -> (q: Quaternion)
        requires
            self.wf(),
            rhs.wf(),
        ensures
            q == (Quaternion {
                s: sp_sub(self.s as int, rhs.s as int) as i128,
                v: sp_vsub(self.v, rhs.v),
            }),
            q.wf(),
    {
        Quaternion::from_sv(fsub(self.s, rhs.s), self.v.sub(rhs.v))
    }

    /// The componentwise product of two quaternions.
    pub fn mul(self, rhs: Quaternion) -> (q: Quaternion)
        requires
            self.wf(),
            rhs.wf(),
        ensures
            q == (Quaternion {
                s: sp_mul(self.s as int, rhs.s as int) as i128,
                v: sp_vmul(self.v, rhs.v),
            }),
            q.wf(),
    {
        Quaternion::from_sv(fmul(self.s, rhs.s), self.v.mul(rhs.v))
    }

    /// The quaternion scaled by `k`.
    pub fn mul_scalar(self, k: i128) -> (q: Quaternion)
        requires
            self.wf(),
            fits(k as int),
        ensures
            q == (Quaternion { s: sp_mul(self.s as int, k as int) as i128, v: sp_vscale(self.v, k as int) }),
            q.wf(),
    {
        Quaternion::from_sv(fmul(self.s, k), self.v.scale(k))
    }

    /// The componentwise quotient of two quaternions.
    pub fn div(self, rhs: Quaternion) -> (q: Quaternion)
        requires
            self.wf(),
            rhs.wf(),
        ensures
            q == (Quaternion {
                s: sp_div(self.s as int, rhs.s as int) as i128,
                v: sp_vdiv(self.v, rhs.v),
            }),
            q.wf(),
    {
        Quaternion::from_sv(fdiv(self.s, rhs.s), self.v.div(rhs.v))
    }

    /// The quaternion divided by `k`.
    pub fn div_scalar(self, k: i128) -> (q: Quaternion)
        requires
            self.wf(),
            fits(k as int),
        ensures
            q == (Quaternion {
                s: sp_div(self.s as int, k as int) as i128,
                v: sp_vdiv_s(self.v, k as int),
            }),
            q.wf(),
    {
        Quaternion::from_sv(fdiv(self.s, k), self.v.div_scalar(k))
    }
}

impl core::convert::From<[i128; 4]> for Quaternion {
    /// A quaternion from a scalar-first array of components.
    fn from(arr: [i128; 4]) -> (q: Quaternion) {
        Quaternion { s: arr[0], v: Vec3 { _x: arr[1], _y: arr[2], _z: arr[3] } }
    }
}

impl vstd::std_specs::convert::FromSpecImpl<[i128; 4]> for Quaternion {
    open spec fn obeys_from_spec() -> bool {
        true
    }

    open spec fn from_spec(arr: [i128; 4]) -> Quaternion {
        Quaternion { s: arr[0], v: Vec3 { _x: arr[1], _y: arr[2], _z: arr[3] } }
    }
}

impl core::convert::From<(i128, i128, i128, i128)> for Quaternion {
    /// A quaternion from a scalar-first tuple of components.
    fn from(tup: (i128, i128, i128, i128)) -> (q: Quaternion) {
        Quaternion { s: tup.0, v: Vec3 { _x: tup.1, _y: tup.2, _z: tup.3 } }
    }
}

impl vstd::std_specs::convert::FromSpecImpl<(i128, i128, i128, i128)> for Quaternion {
    open spec fn obeys_from_spec() -> bool {
        true
    }

    open spec fn from_spec(tup: (i128, i128, i128, i128)) -> Quaternion {
        Quaternion { s: tup.0, v: Vec3 { _x: tup.1, _y: tup.2, _z: tup.3 } }
    }
}

} // verus!
