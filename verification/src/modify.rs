//! Spatial transform wrappers: translation and quaternion rotation around a
//! wrapped surface.

use vstd::prelude::*;
use crate::fixed::{fits, smin, smax, SAT, fmin, fmax};
use crate::vec::{Vec3, sp_vadd, sp_vsub};
use crate::ray::Ray;
use crate::aabb::AABB;
use crate::util::Rng;
use crate::quaternion::{Quaternion, sp_qrotate};
use crate::hittable::{Hittable, HitRecord, sp_hit, sp_bbox, sp_wf};

verus! {

/// A surface shifted by a fixed offset.
pub struct Translate {
    pub object: Box<Hittable>,
    pub offset: Vec3,
}

impl Translate {
    pub fn new(object: Box<Hittable>, offset: Vec3) -> (t: Translate)
        requires
            sp_wf(*object),
            offset.wf(),
        ensures
            t.object == object,
            t.offset == offset,
            sp_wf(Hittable::Translated(t)),
    {
        Translate { object, offset }
    }

    /// The ray is shifted into object space, the wrapped surface queried,
    /// and the hit point shifted back.
    pub fn hit(&self, r: Ray, t_min: i128, t_max: i128, rng: &mut Rng) -> (res: Option<HitRecord>)
        requires
            sp_wf(Hittable::Translated(*self)),
            r.wf(),
            fits(t_min as int),
            fits(t_max as int),
        ensures
            (res, final(rng).state) == sp_hit(
                Hittable::Translated(*self),
                r,
                t_min as int,
                t_max as int,
                old(rng).state,
            ),
            res matches Option::Some(rec) ==> rec.wf() && fits(rec.t as int),
        decreases *self,
    {
        let ray = Ray::new(r.origin.sub(self.offset), r.direction);
        match self.object.hit(ray, t_min, t_max, rng) {
            Option::Some(rec) => Option::Some(
                HitRecord { p: rec.p.add(self.offset), ..rec },
            ),
            Option::None => Option::None,
        }
    }

    /// The wrapped surface's box, shifted by the offset.
    pub fn bounding_box(&self) -> (res: Option<AABB>)
        requires
            sp_wf(Hittable::Translated(*self)),
        ensures
            res == sp_bbox(Hittable::Translated(*self)),
            res matches Option::Some(bb) ==> bb.wf(),
        decreases *self,
    {
        match self.object.bounding_box() {
            Option::Some(bbox) => Option::Some(
                AABB::new(bbox.min.add(self.offset), bbox.max.add(self.offset)),
            ),
            Option::None => Option::None,
        }
    }
}

/// A surface rotated by a stored unit quaternion, with the rotated bounding
/// box cached at construction.
pub struct Rotate {
    pub _object: Box<Hittable>,
    pub _rotation: Quaternion,
    pub _bounding_box: Option<AABB>,
}

/// The axis-aligned box around the eight rotated corners of `bb`: the fold
/// of componentwise minima and maxima, starting from the inverted sentinel
/// box.
pub open spec fn sp_min8(i: int, v0: int, v1: int, v2: int, v3: int, v4: int, v5: int, v6: int, v7: int) -> int {
    smin(smin(smin(smin(smin(smin(smin(smin(i, v0), v1), v2), v3), v4), v5), v6), v7)
}

pub open spec fn sp_max8(i: int, v0: int, v1: int, v2: int, v3: int, v4: int, v5: int, v6: int, v7: int) -> int {
    smax(smax(smax(smax(smax(smax(smax(smax(i, v0), v1), v2), v3), v4), v5), v6), v7)
}

pub open spec fn sp_rotate_bbox(q: Quaternion, bb: AABB) -> AABB {
    let c0 = sp_qrotate(q, Vec3 { _x: bb.min._x, _y: bb.min._y, _z: bb.min._z });
    let c1 = sp_qrotate(q, Vec3 { _x: bb.min._x, _y: bb.min._y, _z: bb.max._z });
    let c2 = sp_qrotate(q, Vec3 { _x: bb.min._x, _y: bb.max._y, _z: bb.min._z });
    let c3 = sp_qrotate(q, Vec3 { _x: bb.min._x, _y: bb.max._y, _z: bb.max._z });
    let c4 = sp_qrotate(q, Vec3 { _x: bb.max._x, _y: bb.min._y, _z: bb.min._z });
    let c5 = sp_qrotate(q, Vec3 { _x: bb.max._x, _y: bb.min._y, _z: bb.max._z });
    let c6 = sp_qrotate(q, Vec3 { _x: bb.max._x, _y: bb.max._y, _z: bb.min._z });
    let c7 = sp_qrotate(q, Vec3 { _x: bb.max._x, _y: bb.max._y, _z: bb.max._z });
    AABB {
        min: Vec3 {
            _x: sp_min8(SAT as int, c0._x as int, c1._x as int, c2._x as int, c3._x as int, c4._x as int, c5._x as int, c6._x as int, c7._x as int) as i128,
            _y: sp_min8(SAT as int, c0._y as int, c1._y as int, c2._y as int, c3._y as int, c4._y as int, c5._y as int, c6._y as int, c7._y as int) as i128,
            _z: sp_min8(SAT as int, c0._z as int, c1._z as int, c2._z as int, c3._z as int, c4._z as int, c5._z as int, c6._z as int, c7._z as int) as i128,
        },
        max: Vec3 {
            _x: sp_max8(-(SAT as int), c0._x as int, c1._x as int, c2._x as int, c3._x as int, c4._x as int, c5._x as int, c6._x as int, c7._x as int) as i128,
            _y: sp_max8(-(SAT as int), c0._y as int, c1._y as int, c2._y as int, c3._y as int, c4._y as int, c5._y as int, c6._y as int, c7._y as int) as i128,
            _z: sp_max8(-(SAT as int), c0._z as int, c1._z as int, c2._z as int, c3._z as int, c4._z as int, c5._z as int, c6._z as int, c7._z as int) as i128,
        },
    }
}

fn min8(i: i128, v0: i128, v1: i128, v2: i128, v3: i128, v4: i128, v5: i128, v6: i128, v7: i128) -> (r: i128)
    ensures
        r == sp_min8(i as int, v0 as int, v1 as int, v2 as int, v3 as int, v4 as int, v5 as int, v6 as int, v7 as int),
{
    fmin(fmin(fmin(fmin(fmin(fmin(fmin(fmin(i, v0), v1), v2), v3), v4), v5), v6), v7)
}

fn max8(i: i128, v0: i128, v1: i128, v2: i128, v3: i128, v4: i128, v5: i128, v6: i128, v7: i128) -> (r: i128)
    ensures
        r == sp_max8(i as int, v0 as int, v1 as int, v2 as int, v3 as int, v4 as int, v5 as int, v6 as int, v7 as int),
{
    fmax(fmax(fmax(fmax(fmax(fmax(fmax(fmax(i, v0), v1), v2), v3), v4), v5), v6), v7)
}

/// The axis-aligned box around the eight rotated corners of `bb`; this is
/// conservative (it may grow the volume) but always contains the rotated
/// surface's box.
#[verifier::rlimit(100)]
pub fn rotate_bounding_box(q: Quaternion, bounding_box: AABB) -> (res: AABB)
    requires
        q.wf(),
        bounding_box.wf(),
    ensures
        res == sp_rotate_bbox(q, bounding_box),
        res.wf(),
{
    let corners = bounding_box.get_corners();
    let c0 = q.mul_vec(corners[0]);
    let c1 = q.mul_vec(corners[1]);
    let c2 = q.mul_vec(corners[2]);
    let c3 = q.mul_vec(corners[3]);
    let c4 = q.mul_vec(corners[4]);
    let c5 = q.mul_vec(corners[5]);
    let c6 = q.mul_vec(corners[6]);
    let c7 = q.mul_vec(corners[7]);
    let min = Vec3 {
        _x: min8(SAT, c0._x, c1._x, c2._x, c3._x, c4._x, c5._x, c6._x, c7._x),
        _y: min8(SAT, c0._y, c1._y, c2._y, c3._y, c4._y, c5._y, c6._y, c7._y),
        _z: min8(SAT, c0._z, c1._z, c2._z, c3._z, c4._z, c5._z, c6._z, c7._z),
    };
    let max = Vec3 {
        _x: max8(-SAT, c0._x, c1._x, c2._x, c3._x, c4._x, c5._x, c6._x, c7._x),
        _y: max8(-SAT, c0._y, c1._y, c2._y, c3._y, c4._y, c5._y, c6._y, c7._y),
        _z: max8(-SAT, c0._z, c1._z, c2._z, c3._z, c4._z, c5._z, c6._z, c7._z),
    };
    AABB::new(min, max)
}

impl Rotate {
    /// Wraps a surface in a rotation; the rotated box is cached now.
    #[verifier::rlimit(100)]
    pub fn new(object: Box<Hittable>, rotation: Quaternion) -> (t: Rotate)
        requires
            sp_wf(*object),
            rotation.wf(),
        ensures
            t._object == object,
            t._rotation == rotation,
            t._bounding_box == (match sp_bbox(*object) {
                Option::Some(bb) => Option::Some(sp_rotate_bbox(rotation, bb)),
                Option::None => Option::<AABB>::None,
            }),
            sp_wf(Hittable::Rotated(t)),
    {
        let boundingbox: Option<AABB> = match object.bounding_box() {
            Option::Some(bbox) => Option::Some(rotate_bounding_box(rotation, bbox)),
            Option::None => Option::None,
        };
        Rotate { _object: object, _rotation: rotation, _bounding_box: boundingbox }
    }

    /// Replaces the rotation; the cached box, when present, is re-rotated in
    /// place (the fresh rotation is applied to the already-rotated box).
    pub fn set_rotation(&mut self, q: Quaternion)
        requires
            sp_wf(Hittable::Rotated(*old(self))),
            q.wf(),
        ensures
            final(self)._object == old(self)._object,
            final(self)._rotation == q,
            final(self)._bounding_box == (match old(self)._bounding_box {
                Option::Some(bb) => Option::Some(sp_rotate_bbox(q, bb)),
                Option::None => Option::<AABB>::None,
            }),
            sp_wf(Hittable::Rotated(*final(self))),
    {
        self._rotation = q;
        match self._bounding_box {
            Option::Some(bbox) => {
                self._bounding_box = Option::Some(rotate_bounding_box(q, bbox));
            },
            Option::None => {},
        }
    }

    /// Replaces the rotation by an axis-angle rotation.
    pub fn set_rotation_from_axis_angle(&mut self, axis: Vec3, angle: i128)
        requires
            sp_wf(Hittable::Rotated(*old(self))),
            axis.wf(),
            fits(angle as int),
        ensures
            final(self)._object == old(self)._object,
            final(self)._rotation == crate::quaternion::sp_from_rotation_axis(axis, angle as int),
            sp_wf(Hittable::Rotated(*final(self))),
    {
        let q = Quaternion::from_rotation_axis(axis, angle);
        self.set_rotation(q);
    }

    /// The ray is rotated into object space by the conjugate, the wrapped
    /// surface queried, and the hit point and normal rotated back.
    pub fn hit(&self, r: Ray, t_min: i128, t_max: i128, rng: &mut Rng) -> (res: Option<HitRecord>)
        requires
            sp_wf(Hittable::Rotated(*self)),
            r.wf(),
            fits(t_min as int),
            fits(t_max as int),
        ensures
            (res, final(rng).state) == sp_hit(
                Hittable::Rotated(*self),
                r,
                t_min as int,
                t_max as int,
                old(rng).state,
            ),
            res matches Option::Some(rec) ==> rec.wf() && fits(rec.t as int),
        decreases *self,
    {
        let q = self._rotation;
        let qr = q.conjugate();
        let rotated_ray = Ray::new(qr.mul_vec(r.origin), qr.mul_vec(r.direction));
        match self._object.hit(rotated_ray, t_min, t_max, rng) {
            Option::Some(rec) => {
                let p = q.mul_vec(rec.p);
                let normal = q.mul_vec(rec.normal);
                Option::Some(HitRecord { p, normal, ..rec })
            },
            Option::None => Option::None,
        }
    }

    /// The cached rotated box.
    pub fn bounding_box(&self) -> (res: Option<AABB>)
        requires
            sp_wf(Hittable::Rotated(*self)),
        ensures
            res == sp_bbox(Hittable::Rotated(*self)),
            res matches Option::Some(bb) ==> bb.wf(),
    {
        self._bounding_box
    }
}

} // verus!
