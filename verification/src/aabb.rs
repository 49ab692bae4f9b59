//! Axis-aligned bounding boxes with a slab-test intersection and a merge.

use vstd::prelude::*;
use crate::fixed::{fits, smin, smax, sp_sub, sp_div, fsub, fdiv, fmin, fmax};
use crate::vec::Vec3;
use crate::ray::Ray;

verus! {

/// An axis-aligned box given by its minimum and maximum corner.
#[derive(Clone, Copy, Debug, PartialEq, Eq, Structural)]
pub struct AABB {
    pub min: Vec3,
    pub max: Vec3,
}

/// Narrowing of the parameter interval `[tmin, tmax]` by one slab.  A zero
/// direction component passes the interval through unchanged when the origin
/// lies between the slab planes (inclusively) and rejects the ray otherwise,
/// matching how infinite quotients would participate in the narrowing.
pub open spec fn sp_slab(mn: int, mx: int, o: int, d: int, tmin: int, tmax: int) -> Option<
    (int, int),
> {
    if d == 0 {
        if o < mn || o > mx {
            None
        } else {
            Some((tmin, tmax))
        }
    } else {
        let t0 = sp_div(sp_sub(mn, o), d);
        let t1 = sp_div(sp_sub(mx, o), d);
        let lo = if d < 0 { t1 } else { t0 };
        let hi = if d < 0 { t0 } else { t1 };
        let ntmin = smax(lo, tmin);
        let ntmax = smin(hi, tmax);
        if ntmax <= ntmin {
            None
        } else {
            Some((ntmin, ntmax))
        }
    }
}

/// Whether the ray meets the box somewhere in the parameter window
/// `[tmin, tmax]`: the three slabs narrow the window in turn, and the box is
/// hit exactly when the window never empties.
pub open spec fn sp_aabb_hit(bb: AABB, r: Ray, tmin: int, tmax: int) -> bool {
    match sp_slab(
        bb.min._x as int,
        bb.max._x as int,
        r.origin._x as int,
        r.direction._x as int,
        tmin,
        tmax,
    ) {
        Option::None => false,
        Option::Some((m1, x1)) => match sp_slab(
            bb.min._y as int,
            bb.max._y as int,
            r.origin._y as int,
            r.direction._y as int,
            m1,
            x1,
        ) {
            Option::None => false,
            Option::Some((m2, x2)) => sp_slab(
                bb.min._z as int,
                bb.max._z as int,
                r.origin._z as int,
                r.direction._z as int,
                m2,
                x2,
            ) matches Option::Some(_),
        },
    }
}

/// The tightest box containing both arguments.
pub open spec fn sp_merge(a: AABB, b: AABB) -> AABB {
    AABB {
        min: Vec3 {
            _x: smin(a.min._x as int, b.min._x as int) as i128,
            _y: smin(a.min._y as int, b.min._y as int) as i128,
            _z: smin(a.min._z as int, b.min._z as int) as i128,
        },
        max: Vec3 {
            _x: smax(a.max._x as int, b.max._x as int) as i128,
            _y: smax(a.max._y as int, b.max._y as int) as i128,
            _z: smax(a.max._z as int, b.max._z as int) as i128,
        },
    }
}

/// Box `outer` contains box `inner`.
pub open spec fn sp_contains(outer: AABB, inner: AABB) -> bool {
    outer.min._x <= inner.min._x && outer.min._y <= inner.min._y && outer.min._z <= inner.min._z
        && inner.max._x <= outer.max._x && inner.max._y <= outer.max._y && inner.max._z
        <= outer.max._z
}

/// The merge of two boxes contains both of them.
pub proof fn lemma_merge_contains(a: AABB, b: AABB)
    ensures
        sp_contains(sp_merge(a, b), a),
        sp_contains(sp_merge(a, b), b),
{
}

/// Merging is commutative.
pub proof fn lemma_merge_commutative(a: AABB, b: AABB)
    ensures
        sp_merge(a, b) == sp_merge(b, a),
{
}

/// Merging a box with itself gives the box back.
pub proof fn lemma_merge_idempotent(a: AABB)
    ensures
        sp_merge(a, a) == a,
{
}

/// Merging is associative.
pub proof fn lemma_merge_associative(a: AABB, b: AABB, c: AABB)
    ensures
        sp_merge(sp_merge(a, b), c) == sp_merge(a, sp_merge(b, c)),
{
}

impl AABB {
    pub open spec fn wf(self) -> bool {
        self.min.wf() && self.max.wf()
    }

    pub fn new(min: Vec3, max: Vec3) -> (bb: AABB)
        requires
            min.wf(),
            max.wf(),
        ensures
            bb == (AABB { min, max }),
            bb.wf(),
    {
        AABB { min, max }
    }

    /// The slab test: narrows `[t_min, t_max]` axis by axis and reports
    /// whether the window stayed nonempty.
    pub fn hit(&self, ray: Ray, t_min: i128, t_max: i128) -> (r: bool)
        requires
            self.wf(),
            ray.wf(),
            fits(t_min as int),
            fits(t_max as int),
        ensures
            r == sp_aabb_hit(*self, ray, t_min as int, t_max as int),
    {
        let mut tmin = t_min;
        let mut tmax = t_max;

        if ray.direction._x == 0 {
            if ray.origin._x < self.min._x || ray.origin._x > self.max._x {
                return false;
            }
        } else {
            let t0 = fdiv(fsub(self.min._x, ray.origin._x), ray.direction._x);
            let t1 = fdiv(fsub(self.max._x, ray.origin._x), ray.direction._x);
            let lo = if ray.direction._x < 0 { t1 } else { t0 };
            let hi = if ray.direction._x < 0 { t0 } else { t1 };
            tmin = fmax(lo, tmin);
            tmax = fmin(hi, tmax);
            if tmax <= tmin {
                return false;
            }
        }

        if ray.direction._y == 0 {
            if ray.origin._y < self.min._y || ray.origin._y > self.max._y {
                return false;
            }
        } else {
            let t0 = fdiv(fsub(self.min._y, ray.origin._y), ray.direction._y);
            let t1 = fdiv(fsub(self.max._y, ray.origin._y), ray.direction._y);
            let lo = if ray.direction._y < 0 { t1 } else { t0 };
            let hi = if ray.direction._y < 0 { t0 } else { t1 };
            tmin = fmax(lo, tmin);
            tmax = fmin(hi, tmax);
            if tmax <= tmin {
                return false;
            }
        }

        if ray.direction._z == 0 {
            if ray.origin._z < self.min._z || ray.origin._z > self.max._z {
                return false;
            }
        } else {
            let t0 = fdiv(fsub(self.min._z, ray.origin._z), ray.direction._z);
            let t1 = fdiv(fsub(self.max._z, ray.origin._z), ray.direction._z);
            let lo = if ray.direction._z < 0 { t1 } else { t0 };
            let hi = if ray.direction._z < 0 { t0 } else { t1 };
            tmin = fmax(lo, tmin);
            tmax = fmin(hi, tmax);
            if tmax <= tmin {
                return false;
            }
        }

        true
    }

    /// The componentwise merge.
    pub fn merge(a: &AABB, b: &AABB) -> (r: AABB)
        requires
            a.wf(),
            b.wf(),
        ensures
            r == sp_merge(*a, *b),
            r.wf(),
    {
        let min = Vec3 {
            _x: fmin(a.min._x, b.min._x),
            _y: fmin(a.min._y, b.min._y),
            _z: fmin(a.min._z, b.min._z),
        };
        let max = Vec3 {
            _x: fmax(a.max._x, b.max._x),
            _y: fmax(a.max._y, b.max._y),
            _z: fmax(a.max._z, b.max._z),
        };
        AABB { min, max }
    }

    /// The eight corners: every combination of minimum and maximum per axis.
    pub fn get_corners(self) -> (r: [Vec3; 8])
        requires
            self.wf(),
        ensures
            r[0] == (Vec3 { _x: self.min._x, _y: self.min._y, _z: self.min._z }),
            r[1] == (Vec3 { _x: self.min._x, _y: self.min._y, _z: self.max._z }),
            r[2] == (Vec3 { _x: self.min._x, _y: self.max._y, _z: self.min._z }),
            r[3] == (Vec3 { _x: self.min._x, _y: self.max._y, _z: self.max._z }),
            r[4] == (Vec3 { _x: self.max._x, _y: self.min._y, _z: self.min._z }),
            r[5] == (Vec3 { _x: self.max._x, _y: self.min._y, _z: self.max._z }),
            r[6] == (Vec3 { _x: self.max._x, _y: self.max._y, _z: self.min._z }),
            r[7] == (Vec3 { _x: self.max._x, _y: self.max._y, _z: self.max._z }),
            forall|i: int| 0 <= i < 8 ==> #[trigger] r[i].wf(),
    {
        [
            Vec3 { _x: self.min._x, _y: self.min._y, _z: self.min._z },
            Vec3 { _x: self.min._x, _y: self.min._y, _z: self.max._z },
            Vec3 { _x: self.min._x, _y: self.max._y, _z: self.min._z },
            Vec3 { _x: self.min._x, _y: self.max._y, _z: self.max._z },
            Vec3 { _x: self.max._x, _y: self.min._y, _z: self.min._z },
            Vec3 { _x: self.max._x, _y: self.min._y, _z: self.max._z },
            Vec3 { _x: self.max._x, _y: self.max._y, _z: self.min._z },
            Vec3 { _x: self.max._x, _y: self.max._y, _z: self.max._z },
        ]
    }
}

} // verus!
