//! Spheres, with the analytic quadratic intersection.

use vstd::prelude::*;
use crate::fixed::{
    fits, sp_add, sp_sub, sp_mul, sp_div, sp_sqrt, fadd, fsub, fmul, fdiv, fneg, fsqrt, ONE,
};
use crate::vec::{Vec3, sp_vsub, sp_vdiv_s, sp_dot};
use crate::ray::{Ray, sp_point_at};
use crate::aabb::AABB;
use crate::hittable::HitRecord;
use crate::util::{PI, HALF_PI, TWO_PI};
use crate::approx::{sp_atan2, sp_asin, fatan2, fasin};

verus! {

/// A sphere: center, radius, and the index of its material in the scene's
/// material arena.
#[derive(Clone, Copy, Debug, PartialEq, Eq, Structural)]
pub struct Sphere {
    pub center: Vec3,
    pub radius: i128,
    pub material: usize,
}

/// Spherical surface coordinates of a point on the unit sphere:
/// `u` from the azimuth, `v` from the elevation.
pub open spec fn sp_sphere_uv(q: Vec3) -> (int, int) {
    let phi = sp_atan2(q._z as int, q._x as int);
    let theta = sp_asin(q._y as int);
    (
        sp_sub(ONE as int, sp_div(sp_add(phi, PI as int), TWO_PI as int)),
        sp_div(sp_add(theta, HALF_PI as int), PI as int),
    )
}

/// The hit record produced at parameter `t` on sphere `s`.
pub open spec fn sp_sphere_record(s: Sphere, r: Ray, t: int) -> HitRecord {
    let p = sp_point_at(r, t);
    let normal = sp_vdiv_s(sp_vsub(p, s.center), s.radius as int);
    let uv = sp_sphere_uv(normal);
    HitRecord {
        t: t as i128,
        p: p,
        normal: normal,
        material: s.material,
        u: uv.0 as i128,
        v: uv.1 as i128,
    }
}

/// The nearest intersection of a ray with a sphere, strictly inside
/// `(t_min, t_max)`: the quadratic `a t^2 + 2 b t + c = 0` is solved and the
/// near root is preferred over the far one.
pub open spec fn sp_sphere_hit(s: Sphere, r: Ray, t_min: int, t_max: int) -> Option<HitRecord> {
    let oc = sp_vsub(r.origin, s.center);
    let a = sp_dot(r.direction, r.direction);
    let b = sp_dot(oc, r.direction);
    let c = sp_sub(sp_dot(oc, oc), sp_mul(s.radius as int, s.radius as int));
    let disc = sp_sub(sp_mul(b, b), sp_mul(a, c));
    if disc > 0 {
        let sq = sp_sqrt(disc);
        let t1 = sp_div(sp_sub(-b, sq), a);
        if t_min < t1 < t_max {
            Option::Some(sp_sphere_record(s, r, t1))
        } else {
            let t2 = sp_div(sp_add(-b, sq), a);
            if t_min < t2 < t_max {
                Option::Some(sp_sphere_record(s, r, t2))
            } else {
                Option::None
            }
        }
    } else {
        Option::None
    }
}

impl Sphere {
    pub open spec fn wf(self) -> bool {
        self.center.wf() && fits(self.radius as int)
    }

    pub fn new(center: Vec3, radius: i128, material: usize) -> (s: Sphere)
        requires
            center.wf(),
            fits(radius as int),
        ensures
            s == (Sphere { center, radius, material }),
            s.wf(),
    {
        Sphere { center, radius, material }
    }

    /// The nearest intersection strictly inside `(t_min, t_max)`, if any.
    pub fn hit(&self, r: Ray, t_min: i128, t_max: i128) -> (res: Option<HitRecord>)
        requires
            self.wf(),
            r.wf(),
            fits(t_min as int),
            fits(t_max as int),
        ensures
            res == sp_sphere_hit(*self, r, t_min as int, t_max as int),
            res matches Option::Some(rec) ==> rec.wf() && t_min < rec.t < t_max,
    {
        let oc = r.origin.sub(self.center);
        let a = Vec3::dot(r.direction, r.direction);
        let b = Vec3::dot(oc, r.direction);
        let c = fsub(Vec3::dot(oc, oc), fmul(self.radius, self.radius));
        let discriminant = fsub(fmul(b, b), fmul(a, c));
        if discriminant > 0 {
            let sq = fsqrt(discriminant);
            let temp = fdiv(fsub(fneg(b), sq), a);
            if temp < t_max && temp > t_min {
                return Option::Some(self.record_at(r, temp));
            }
            let temp = fdiv(fadd(fneg(b), sq), a);
            if temp < t_max && temp > t_min {
                return Option::Some(self.record_at(r, temp));
            }
            Option::None
        } else {
            Option::None
        }
    }

    /// Builds the hit record for a known intersection parameter.
    fn record_at(&self, r: Ray, t: i128) -> (rec: HitRecord)
        requires
            self.wf(),
            r.wf(),
            fits(t as int),
        ensures
            rec == sp_sphere_record(*self, r, t as int),
            rec.wf(),
            rec.t == t,
    {
        let p = r.point_at_parameter(t);
        let normal = p.sub(self.center).div_scalar(self.radius);
        let (u, v) = get_sphere_uv(normal);
        HitRecord { t, p, normal, material: self.material, u, v }
    }

    /// The tight axis-aligned box around the sphere.
    pub fn bounding_box(&self) -> (bb: AABB)
        requires
            self.wf(),
        ensures
            bb == (AABB {
                min: crate::vec::sp_vsub(
                    self.center,
                    Vec3 { _x: self.radius, _y: self.radius, _z: self.radius },
                ),
                max: crate::vec::sp_vadd(
                    self.center,
                    Vec3 { _x: self.radius, _y: self.radius, _z: self.radius },
                ),
            }),
            bb.wf(),
    {
        AABB {
            min: self.center.sub_scalar(self.radius),
            max: self.center.add_scalar(self.radius),
        }
    }
}

/// Spherical surface coordinates of a point on the unit sphere.
pub fn get_sphere_uv(p: Vec3) -> (uv: (i128, i128))
    requires
        p.wf(),
    ensures
        uv.0 == sp_sphere_uv(p).0,
        uv.1 == sp_sphere_uv(p).1,
        fits(uv.0 as int),
        fits(uv.1 as int),
{
    let phi = fatan2(p._z, p._x);
    let theta = fasin(p._y);
    let u = fsub(ONE, fdiv(fadd(phi, PI), TWO_PI));
    let v = fdiv(fadd(theta, HALF_PI), PI);
    (u, v)
}

} // verus!
