//! A plain list of surfaces, queried by scanning every member.

use vstd::prelude::*;
use crate::fixed::{fits, SAT};
use crate::vec::Vec3;
use crate::ray::Ray;
use crate::aabb::AABB;
use crate::util::Rng;
use crate::hittable::{
    Hittable, HitRecord, sp_hit, sp_list_hit, sp_bbox, sp_bbox_fold, sp_wf, sp_wf_seq,
    lemma_wf_seq_index, lemma_wf_seq_push,
};

verus! {

/// A list of surfaces.
pub struct HittableList {
    pub objects: Vec<Hittable>,
}

impl HittableList {
    pub open spec fn wf(self) -> bool {
        sp_wf_seq(self.objects@)
    }

    /// An empty list.
    pub fn new() -> (l: HittableList)
        ensures
            l.objects@ =~= Seq::<Hittable>::empty(),
            l.wf(),
    {
        HittableList { objects: Vec::new() }
    }

    /// A list over an existing vector of surfaces.
    pub fn from_vec(v: Vec<Hittable>) -> (l: HittableList)
        requires
            sp_wf_seq(v@),
        ensures
            l.objects@ == v@,
            l.wf(),
    {
        let objects = v;
        HittableList { objects }
    }

    /// Appends a surface.
    pub fn add(&mut self, object: Hittable)
        requires
            old(self).wf(),
            sp_wf(object),
        ensures
            final(self).objects@ == old(self).objects@.push(object),
            final(self).wf(),
    {
        proof {
            lemma_wf_seq_push(self.objects@, object);
        }
        self.objects.push(object);
    }

    /// The nearest hit over all members: each member is queried for a hit
    /// closer than the best seen so far.
    pub fn hit(&self, r: Ray, t_min: i128, t_max: i128, rng: &mut Rng) -> (res: Option<HitRecord>)
        requires
            sp_wf(Hittable::List(*self)),
            r.wf(),
            fits(t_min as int),
            fits(t_max as int),
        ensures
            (res, final(rng).state) == sp_hit(
                Hittable::List(*self),
                r,
                t_min as int,
                t_max as int,
                old(rng).state,
            ),
            res matches Option::Some(rec) ==> rec.wf() && fits(rec.t as int),
        decreases *self,
    {
        let ghost s0 = rng.state;
        let mut hit: Option<HitRecord> = Option::None;
        let mut closest: i128 = t_max;
        let mut i: usize = 0;
        while i < self.objects.len()
            invariant
                sp_wf(Hittable::List(*self)),
                r.wf(),
                fits(t_min as int),
                fits(t_max as int),
                fits(closest as int),
                i <= self.objects@.len(),
                hit matches Option::Some(rec) ==> rec.wf() && fits(rec.t as int),
                sp_list_hit(
                    self.objects@,
                    0,
                    r,
                    t_min as int,
                    t_max as int,
                    Option::None,
                    t_max as int,
                    s0,
                ) == sp_list_hit(
                    self.objects@,
                    i as int,
                    r,
                    t_min as int,
                    closest as int,
                    hit,
                    t_max as int,
                    rng.state,
                ),
            decreases self.objects@.len() - i,
        {
            proof {
                lemma_wf_seq_index(self.objects@, i as int);
            }
            let result = self.objects[i].hit(r, t_min, closest, rng);
            match result {
                Option::Some(rec) => {
                    closest = rec.t;
                    hit = Option::Some(rec);
                },
                Option::None => {},
            }
            i = i + 1;
        }
        hit
    }

    /// The merge of all members' boxes, starting from the inverted sentinel
    /// box; a single-member list, or any member without a box of its own,
    /// reports none.
    pub fn bounding_box(&self) -> (res: Option<AABB>)
        requires
            sp_wf(Hittable::List(*self)),
        ensures
            res == sp_bbox(Hittable::List(*self)),
            res matches Option::Some(bb) ==> bb.wf(),
        decreases *self,
    {
        if self.objects.len() == 1 {
            return Option::None;
        }
        let mut result = AABB {
            min: Vec3 { _x: SAT, _y: SAT, _z: SAT },
            max: Vec3 { _x: -SAT, _y: -SAT, _z: -SAT },
        };
        let mut i: usize = 0;
        while i < self.objects.len()
            invariant
                sp_wf(Hittable::List(*self)),
                i <= self.objects@.len(),
                result.wf(),
                self.objects@.len() != 1,
                sp_bbox(Hittable::List(*self)) == sp_bbox_fold(self.objects@, i as int, result),
            decreases self.objects@.len() - i,
        {
            proof {
                lemma_wf_seq_index(self.objects@, i as int);
            }
            match self.objects[i].bounding_box() {
                Option::Some(obj) => {
                    result = AABB::merge(&result, &obj);
                },
                Option::None => {
                    return Option::None;
                },
            }
            i = i + 1;
        }
        Option::Some(result)
    }
}

} // verus!
