//! Rays: an origin point and a direction vector.

use vstd::prelude::*;
use crate::fixed::fits;
use crate::vec::{Vec3, sp_vadd, sp_vscale};

verus! {

#[derive(Clone, Copy, Debug, PartialEq, Eq, Structural)]
pub struct Ray {
    pub origin: Vec3,
    pub direction: Vec3,
}

/// The point reached after travelling `t` along the ray.
pub open spec fn sp_point_at(r: Ray, t: int) -> Vec3 {
    sp_vadd(r.origin, sp_vscale(r.direction, t))
}

impl Ray {
    /// Both endpoints of a well-formed ray fit the scalar range.
    pub open spec fn wf(self) -> bool {
        self.origin.wf() && self.direction.wf()
    }

    pub fn new(origin: Vec3, direction: Vec3) -> (r: Ray)
        requires
            origin.wf(),
            direction.wf(),
        ensures
            r == (Ray { origin, direction }),
            r.wf(),
    {
        Ray { origin, direction }
    }

    /// `origin + t * direction`.
    pub fn point_at_parameter(&self, t: i128) -> (p: Vec3)
        requires
            self.wf(),
            fits(t as int),
        ensures
            p == sp_point_at(*self, t as int),
            p.wf(),
    {
        self.origin.add(self.direction.scale(t))
    }
}

} // verus!
