//! Participating media: a convex-ish boundary inside which rays scatter at
//! an exponentially sampled depth.

use vstd::prelude::*;
use crate::fixed::{fits, fadd, fsub, fmul, fdiv, fneg, fmin, fmax, SAT, ONE};
use crate::vec::Vec3;
use crate::ray::Ray;
use crate::aabb::AABB;
use crate::util::{Rng, drand48};
use crate::approx::fln;
use crate::hittable::{Hittable, HitRecord, sp_hit, sp_bbox, sp_wf};

verus! {

/// A constant-density medium bounded by a wrapped surface; the phase
/// function is the index of an isotropic material in the scene's arena.
pub struct ConstantMedium {
    pub boundary: Box<Hittable>,
    pub density: i128,
    pub phase_function: usize,
}

impl ConstantMedium {
    pub fn new(boundary: Box<Hittable>, density: i128, phase_function: usize) -> (m:
        ConstantMedium)
        requires
            sp_wf(*boundary),
            fits(density as int),
        ensures
            m.boundary == boundary,
            m.density == density,
            m.phase_function == phase_function,
            sp_wf(Hittable::Medium(m)),
    {
        ConstantMedium { boundary, density, phase_function }
    }

    /// The boundary is queried for the entry hit and, just past it, the exit
    /// hit; both are clamped to the caller's window, and an exponential free
    /// path `-ln(U) / density` decides whether the ray scatters inside.  The
    /// reported normal is arbitrary, since the medium is isotropic.
    #[verifier::rlimit(100)]
    pub fn hit(&self, r: Ray, t_min: i128, t_max: i128, rng: &mut Rng) -> (res: Option<HitRecord>)
        requires
            sp_wf(Hittable::Medium(*self)),
            r.wf(),
            fits(t_min as int),
            fits(t_max as int),
        ensures
            (res, final(rng).state) == sp_hit(
                Hittable::Medium(*self),
                r,
                t_min as int,
                t_max as int,
                old(rng).state,
            ),
            res matches Option::Some(rec) ==> rec.wf() && fits(rec.t as int),
        decreases *self,
    {
        match self.boundary.hit(r, t_min, t_max, rng) {
            Option::None => Option::None,
            Option::Some(rec1) => {
                match self.boundary.hit(r, fadd(rec1.t, crate::EPSILON), t_max, rng) {
                    Option::None => Option::None,
                    Option::Some(rec2) => {
                        let entry0 = fmax(rec1.t, t_min);
                        let exit = fmin(rec2.t, t_max);
                        if entry0 >= exit {
                            return Option::None;
                        }
                        let entry = fmax(entry0, 0);
                        let u = drand48(rng);
                        let ray_length = r.direction.length();
                        let distance_inside = fmul(fsub(exit, entry), ray_length);
                        let neg_ln = if u == 0 {
                            SAT
                        } else {
                            fneg(fln(u))
                        };
                        let hit_distance = fmul(fdiv(ONE, self.density), neg_ln);
                        if hit_distance < distance_inside {
                            let t = fadd(entry, fdiv(hit_distance, ray_length));
                            let p = r.point_at_parameter(t);
                            let normal = Vec3 { _x: ONE, _y: 0, _z: 0 };  // arbitrary
                            Option::Some(
                                HitRecord {
                                    t,
                                    p,
                                    normal,
                                    material: self.phase_function,
                                    u: 0,
                                    v: 0,
                                },
                            )
                        } else {
                            Option::None
                        }
                    },
                }
            },
        }
    }

    /// The boundary's own box.
    pub fn bounding_box(&self) -> (res: Option<AABB>)
        requires
            sp_wf(Hittable::Medium(*self)),
        ensures
            res == sp_bbox(Hittable::Medium(*self)),
            res matches Option::Some(bb) ==> bb.wf(),
        decreases *self,
    {
        self.boundary.bounding_box()
    }
}

} // verus!
