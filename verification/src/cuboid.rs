//! Axis-aligned cuboids, intersected through all three slab pairs at once.

use vstd::prelude::*;
use crate::fixed::{fits, smin, smax, sp_sub, sp_div, fsub, fdiv, fmin, fmax, ONE};
use crate::vec::{Vec3, sp_vsub};
use crate::ray::{Ray, sp_point_at};
use crate::aabb::AABB;
use crate::hittable::HitRecord;

verus! {

/// An axis-aligned cuboid between two corners, with the index of its
/// material in the scene's material arena.
#[derive(Clone, Copy, Debug, PartialEq, Eq, Structural)]
pub struct Cuboid {
    pub min: Vec3,
    pub max: Vec3,
    pub material: usize,
}

/// The six candidate parameters at which the ray crosses the slab planes.
pub open spec fn sp_cuboid_ts(c: Cuboid, r: Ray) -> (int, int, int, int, int, int) {
    (
        sp_div(sp_sub(c.min._x as int, r.origin._x as int), r.direction._x as int),
        sp_div(sp_sub(c.max._x as int, r.origin._x as int), r.direction._x as int),
        sp_div(sp_sub(c.min._y as int, r.origin._y as int), r.direction._y as int),
        sp_div(sp_sub(c.max._y as int, r.origin._y as int), r.direction._y as int),
        sp_div(sp_sub(c.min._z as int, r.origin._z as int), r.direction._z as int),
        sp_div(sp_sub(c.max._z as int, r.origin._z as int), r.direction._z as int),
    )
}

/// The entry bound: the largest per-axis minimum.
pub open spec fn sp_cuboid_entry(c: Cuboid, r: Ray) -> int {
    let ts = sp_cuboid_ts(c, r);
    smax(smax(smin(ts.0, ts.1), smin(ts.2, ts.3)), smin(ts.4, ts.5))
}

/// The exit bound: the smallest per-axis maximum.
pub open spec fn sp_cuboid_exit(c: Cuboid, r: Ray) -> int {
    let ts = sp_cuboid_ts(c, r);
    smin(smin(smax(ts.0, ts.1), smax(ts.2, ts.3)), smax(ts.4, ts.5))
}

/// Face coordinates and outward normal for the face whose slab produced the
/// chosen parameter, decided by exact comparison against the six candidates
/// in order.
pub open spec fn sp_cuboid_face(c: Cuboid, r: Ray, t: int) -> (int, int, Vec3) {
    let ts = sp_cuboid_ts(c, r);
    let p = sp_point_at(r, t);
    let ux = sp_div(sp_sub(p._z as int, c.min._z as int), sp_sub(c.max._z as int, c.min._z as int));
    let vx = sp_div(sp_sub(p._y as int, c.min._y as int), sp_sub(c.max._y as int, c.min._y as int));
    let uy = sp_div(sp_sub(p._z as int, c.min._z as int), sp_sub(c.max._z as int, c.min._z as int));
    let vy = sp_div(sp_sub(p._x as int, c.min._x as int), sp_sub(c.max._x as int, c.min._x as int));
    let uz = sp_div(sp_sub(p._x as int, c.min._x as int), sp_sub(c.max._x as int, c.min._x as int));
    let vz = sp_div(sp_sub(p._y as int, c.min._y as int), sp_sub(c.max._y as int, c.min._y as int));
    if t == ts.0 {
        (ux, vx, Vec3 { _x: ((-1) * ONE) as i128, _y: 0i128, _z: 0i128 })
    } else if t == ts.1 {
        (sp_sub(ONE as int, ux), vx, Vec3 { _x: ONE, _y: 0i128, _z: 0i128 })
    } else if t == ts.2 {
        (uy, vy, Vec3 { _x: 0i128, _y: ((-1) * ONE) as i128, _z: 0i128 })
    } else if t == ts.3 {
        (sp_sub(ONE as int, uy), vy, Vec3 { _x: 0i128, _y: ONE, _z: 0i128 })
    } else if t == ts.4 {
        (uz, vz, Vec3 { _x: 0i128, _y: 0i128, _z: ((-1) * ONE) as i128 })
    } else {
        (sp_sub(ONE as int, uz), vz, Vec3 { _x: 0i128, _y: 0i128, _z: ONE })
    }
}

/// The intersection of a ray with a cuboid in the window `[bt_min, bt_max]`:
/// a miss when the box lies behind the ray or the slabs never overlap; the
/// entry parameter, or the exit parameter when the entry lies before the
/// window's start.
pub open spec fn sp_cuboid_hit(c: Cuboid, r: Ray, bt_min: int, bt_max: int) -> Option<HitRecord> {
    let entry = sp_cuboid_entry(c, r);
    let exit = sp_cuboid_exit(c, r);
    if exit < 0 || entry > exit {
        Option::None
    } else {
        let t = if entry < bt_min {
            exit
        } else {
            entry
        };
        if t > bt_max {
            Option::None
        } else {
            let face = sp_cuboid_face(c, r, t);
            Option::Some(
                HitRecord {
                    t: t as i128,
                    p: sp_point_at(r, t),
                    normal: face.2,
                    material: c.material,
                    u: face.0 as i128,
                    v: face.1 as i128,
                },
            )
        }
    }
}

impl Cuboid {
    pub open spec fn wf(self) -> bool {
        self.min.wf() && self.max.wf()
    }

    pub fn new(min: Vec3, max: Vec3, material: usize) -> (c: Cuboid)
        requires
            min.wf(),
            max.wf(),
        ensures
            c == (Cuboid { min, max, material }),
            c.wf(),
    {
        Cuboid { min, max, material }
    }

    /// The intersection with the window `[bt_min, bt_max]`, if any.
    pub fn hit(&self, ray: Ray, bt_min: i128, bt_max: i128) -> (res: Option<HitRecord>)
        requires
            self.wf(),
            ray.wf(),
            fits(bt_min as int),
            fits(bt_max as int),
        ensures
            res == sp_cuboid_hit(*self, ray, bt_min as int, bt_max as int),
            res matches Option::Some(rec) ==> rec.wf(),
    {
        let t0 = fdiv(fsub(self.min._x, ray.origin._x), ray.direction._x);
        let t1 = fdiv(fsub(self.max._x, ray.origin._x), ray.direction._x);
        let t2 = fdiv(fsub(self.min._y, ray.origin._y), ray.direction._y);
        let t3 = fdiv(fsub(self.max._y, ray.origin._y), ray.direction._y);
        let t4 = fdiv(fsub(self.min._z, ray.origin._z), ray.direction._z);
        let t5 = fdiv(fsub(self.max._z, ray.origin._z), ray.direction._z);

        let t_min = fmax(fmax(fmin(t0, t1), fmin(t2, t3)), fmin(t4, t5));
        let t_max = fmin(fmin(fmax(t0, t1), fmax(t2, t3)), fmax(t4, t5));

        // the cuboid is completely behind the ray, or a clean miss
        if t_max < 0 || t_min > t_max {
            return Option::None;
        }
        let t = if t_min < bt_min {
            t_max
        } else {
            t_min
        };
        if t > bt_max {
            return Option::None;
        }
        let point = ray.point_at_parameter(t);
        let u: i128;
        let v: i128;
        let normal = if t == t0 {
            u = fdiv(fsub(point._z, self.min._z), fsub(self.max._z, self.min._z));
            v = fdiv(fsub(point._y, self.min._y), fsub(self.max._y, self.min._y));
            Vec3 { _x: -ONE, _y: 0, _z: 0 }
        } else if t == t1 {
            u = fsub(ONE, fdiv(fsub(point._z, self.min._z), fsub(self.max._z, self.min._z)));
            v = fdiv(fsub(point._y, self.min._y), fsub(self.max._y, self.min._y));
            Vec3 { _x: ONE, _y: 0, _z: 0 }
        } else if t == t2 {
            u = fdiv(fsub(point._z, self.min._z), fsub(self.max._z, self.min._z));
            v = fdiv(fsub(point._x, self.min._x), fsub(self.max._x, self.min._x));
            Vec3 { _x: 0, _y: -ONE, _z: 0 }
        } else if t == t3 {
            u = fsub(ONE, fdiv(fsub(point._z, self.min._z), fsub(self.max._z, self.min._z)));
            v = fdiv(fsub(point._x, self.min._x), fsub(self.max._x, self.min._x));
            Vec3 { _x: 0, _y: ONE, _z: 0 }
        } else if t == t4 {
            u = fdiv(fsub(point._x, self.min._x), fsub(self.max._x, self.min._x));
            v = fdiv(fsub(point._y, self.min._y), fsub(self.max._y, self.min._y));
            Vec3 { _x: 0, _y: 0, _z: -ONE }
        } else {
            // the chosen bound always equals one of the six candidates
            assert(t == t5);
            u = fsub(ONE, fdiv(fsub(point._x, self.min._x), fsub(self.max._x, self.min._x)));
            v = fdiv(fsub(point._y, self.min._y), fsub(self.max._y, self.min._y));
            Vec3 { _x: 0, _y: 0, _z: ONE }
        };
        Option::Some(HitRecord { t, p: point, normal, material: self.material, u, v })
    }

    /// The cuboid's own extent as its bounding box.
    pub fn bounding_box(&self) -> (bb: AABB)
        requires
            self.wf(),
        ensures
            bb == (AABB { min: self.min, max: self.max }),
            bb.wf(),
    {
        AABB { min: self.min, max: self.max }
    }
}

} // verus!
