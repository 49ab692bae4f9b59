//! The surface abstraction: everything a ray can hit, as one closed set of
//! variants dispatched by pattern matching, with a single recursive
//! specification of the intersection query.

use vstd::prelude::*;
use crate::fixed::{fits, smin, smax, sp_add, sp_sub, sp_mul, sp_div, SAT, ONE};
use crate::vec::{Vec3, sp_vadd, sp_vsub, sp_length};
use crate::ray::{Ray, sp_point_at};
use crate::aabb::{AABB, sp_merge, sp_aabb_hit};
use crate::util::{Rng, sp_rng_next, sp_rng_unit};
use crate::sphere::{Sphere, sp_sphere_hit};
use crate::cuboid::{Cuboid, sp_cuboid_hit};
use crate::approx::sp_ln;
use crate::quaternion::Quaternion;

verus! {

/// One intersection: the ray parameter, the world-space point, the outward
/// normal, the index of the responsible material in the scene's material
/// arena, and surface coordinates.
#[derive(Clone, Copy, Debug, PartialEq, Eq, Structural)]
pub struct HitRecord {
    pub t: i128,
    pub p: Vec3,
    pub normal: Vec3,
    pub material: usize,
    pub u: i128,
    pub v: i128,
}

impl HitRecord {
    pub open spec fn wf(self) -> bool {
        fits(self.t as int) && self.p.wf() && self.normal.wf() && fits(self.u as int) && fits(
            self.v as int,
        )
    }

    pub fn new(t: i128, p: Vec3, normal: Vec3, material: usize, u: i128, v: i128) -> (r: HitRecord)
        requires
            fits(t as int),
            p.wf(),
            normal.wf(),
            fits(u as int),
            fits(v as int),
        ensures
            r == (HitRecord { t, p, normal, material, u, v }),
            r.wf(),
    {
        HitRecord { t, p, normal, material, u, v }
    }
}

/// A sentinel surface that nothing ever hits; it pairs a lone primitive in a
/// tree node so traversal needs no special case for arity.
#[derive(Clone, Copy, Debug, PartialEq, Eq, Structural)]
pub struct Empty {}

impl Empty {
    pub fn hit(&self, _r: Ray, _t_min: i128, _t_max: i128) -> (res: Option<HitRecord>)
        ensures
            res is None,
    {
        Option::None
    }

    pub fn bounding_box(&self) -> (res: Option<AABB>)
        ensures
            res is None,
    {
        Option::None
    }
}

/// Every kind of surface the renderer can intersect.
pub enum Hittable {
    Sphere(Sphere),
    Cuboid(Cuboid),
    Node(crate::bvh::BVHNode),
    List(crate::hittable_list::HittableList),
    Medium(crate::constant_medium::ConstantMedium),
    Translated(crate::modify::Translate),
    Rotated(crate::modify::Rotate),
    Empty(Empty),
}

/// Well-formedness: every scalar in the object fits the representable range.
pub open spec fn sp_wf(h: Hittable) -> bool
    decreases h, 0int,
{
    match h {
        Hittable::Sphere(s) => s.wf(),
        Hittable::Cuboid(c) => c.wf(),
        Hittable::Node(n) => n.bbox.wf() && sp_wf(*n.left) && sp_wf(*n.right),
        Hittable::List(l) => sp_wf_seq(l.objects@),
        Hittable::Medium(m) => fits(m.density as int) && sp_wf(*m.boundary),
        Hittable::Translated(t) => t.offset.wf() && sp_wf(*t.object),
        Hittable::Rotated(t) => t._rotation.wf() && sp_wf(*t._object) && (t._bounding_box matches
            Option::Some(bb) ==> bb.wf()),
        Hittable::Empty(_) => true,
    }
}

/// Well-formedness of every object in a sequence.
pub open spec fn sp_wf_seq(objs: Seq<Hittable>) -> bool
    decreases objs, 1int,
{
    objs.len() == 0 || (sp_wf(objs[0]) && sp_wf_seq(objs.drop_first()))
}

/// Every element of a well-formed sequence is well formed.
pub proof fn lemma_wf_seq_index(objs: Seq<Hittable>, i: int)
    requires
        sp_wf_seq(objs),
        0 <= i < objs.len(),
    ensures
        sp_wf(objs[i]),
    decreases i,
{
    if i > 0 {
        lemma_wf_seq_index(objs.drop_first(), i - 1);
        assert(objs.drop_first()[i - 1] == objs[i]);
    }
}

/// A well-formed sequence stays well formed when an element is appended.
pub proof fn lemma_wf_seq_push(objs: Seq<Hittable>, h: Hittable)
    requires
        sp_wf_seq(objs),
        sp_wf(h),
    ensures
        sp_wf_seq(objs.push(h)),
    decreases objs.len(),
{
    if objs.len() == 0 {
        assert(objs.push(h)[0] == h);
        assert(objs.push(h).drop_first() =~= Seq::<Hittable>::empty());
        assert(sp_wf_seq(objs.push(h).drop_first()));
    } else {
        lemma_wf_seq_push(objs.drop_first(), h);
        assert(objs.push(h)[0] == objs[0]);
        assert(objs.push(h).drop_first() =~= objs.drop_first().push(h));
        assert(sp_wf(objs.push(h)[0]));
        assert(sp_wf_seq(objs.push(h).drop_first()));
    }
}

/// The bounding box each surface reports, if it has one.
pub open spec fn sp_bbox(h: Hittable) -> Option<AABB>
    decreases h, 0int,
{
    match h {
        Hittable::Sphere(s) => Option::Some(
            AABB {
                min: sp_vsub(s.center, Vec3 { _x: s.radius, _y: s.radius, _z: s.radius }),
                max: sp_vadd(s.center, Vec3 { _x: s.radius, _y: s.radius, _z: s.radius }),
            },
        ),
        Hittable::Cuboid(c) => Option::Some(AABB { min: c.min, max: c.max }),
        Hittable::Node(n) => Option::Some(n.bbox),
        Hittable::List(l) => if l.objects@.len() == 1 {
            Option::None
        } else {
            sp_bbox_fold(
                l.objects@,
                0,
                AABB {
                    min: Vec3 { _x: SAT, _y: SAT, _z: SAT },
                    max: Vec3 { _x: ((-1) * SAT) as i128, _y: ((-1) * SAT) as i128, _z: ((-1) * SAT) as i128 },
                },
            )
        },
        Hittable::Medium(m) => sp_bbox(*m.boundary),
        Hittable::Translated(t) => match sp_bbox(*t.object) {
            Option::Some(bb) => Option::Some(
                AABB { min: sp_vadd(bb.min, t.offset), max: sp_vadd(bb.max, t.offset) },
            ),
            Option::None => Option::None,
        },
        Hittable::Rotated(t) => t._bounding_box,
        Hittable::Empty(_) => Option::None,
    }
}

/// Folds the boxes of `objs[i..]` into `acc`; `None` as soon as any object
/// has no box of its own.
pub open spec fn sp_bbox_fold(objs: Seq<Hittable>, i: int, acc: AABB) -> Option<AABB>
    decreases objs, objs.len() - i,
{
    if i < 0 || i >= objs.len() {
        Option::Some(acc)
    } else {
        match sp_bbox(objs[i]) {
            Option::None => Option::None,
            Option::Some(b) => sp_bbox_fold(objs, i + 1, sp_merge(acc, b)),
        }
    }
}

/// The intersection query: the nearest hit in the window, together with the
/// generator state after the query (participating media draw from it).
pub open spec fn sp_hit(h: Hittable, r: Ray, t_min: int, t_max: int, s: u64) -> (
    Option<HitRecord>,
    u64,
)
    decreases h, 1int,
{
    match h {
        Hittable::Sphere(sp) => (sp_sphere_hit(sp, r, t_min, t_max), s),
        Hittable::Cuboid(c) => (sp_cuboid_hit(c, r, t_min, t_max), s),
        Hittable::Node(n) => if !sp_aabb_hit(n.bbox, r, t_min, t_max) {
            (Option::None, s)
        } else {
            let hl = sp_hit(*n.left, r, t_min, t_max, s);
            let hr = sp_hit(*n.right, r, t_min, t_max, hl.1);
            (
                match (hl.0, hr.0) {
                    (Option::None, Option::None) => Option::None,
                    (Option::None, Option::Some(rec)) => Option::Some(rec),
                    (Option::Some(rec), Option::None) => Option::Some(rec),
                    (Option::Some(a), Option::Some(b)) => if a.t < b.t {
                        Option::Some(a)
                    } else {
                        Option::Some(b)
                    },
                },
                hr.1,
            )
        },
        Hittable::List(l) => sp_list_hit(l.objects@, 0, r, t_min, t_max, Option::None, t_max, s),
        Hittable::Medium(m) => {
            let first = sp_hit(*m.boundary, r, t_min, t_max, s);
            match first.0 {
                Option::None => (Option::None, first.1),
                Option::Some(rec1) => {
                    let second = sp_hit(
                        *m.boundary,
                        r,
                        sp_add(rec1.t as int, crate::EPSILON as int),
                        t_max,
                        first.1,
                    );
                    match second.0 {
                        Option::None => (Option::None, second.1),
                        Option::Some(rec2) => {
                            let entry0 = smax(rec1.t as int, t_min);
                            let exit = smin(rec2.t as int, t_max);
                            if entry0 >= exit {
                                (Option::None, second.1)
                            } else {
                                let entry = smax(entry0, 0);
                                let u = sp_rng_unit(second.1);
                                let s3 = sp_rng_next(second.1);
                                let ray_length = sp_length(r.direction);
                                let distance_inside = sp_mul(sp_sub(exit, entry), ray_length);
                                let neg_ln = if u == 0 {
                                    SAT as int
                                } else {
                                    -sp_ln(u)
                                };
                                let hit_distance = sp_mul(
                                    sp_div(ONE as int, m.density as int),
                                    neg_ln,
                                );
                                if hit_distance < distance_inside {
                                    let t = sp_add(entry, sp_div(hit_distance, ray_length));
                                    (
                                        Option::Some(
                                            HitRecord {
                                                t: t as i128,
                                                p: sp_point_at(r, t),
                                                normal: Vec3 { _x: ONE, _y: 0i128, _z: 0i128 },
                                                material: m.phase_function,
                                                u: 0i128,
                                                v: 0i128,
                                            },
                                        ),
                                        s3,
                                    )
                                } else {
                                    (Option::None, s3)
                                }
                            }
                        },
                    }
                },
            }
        },
        Hittable::Translated(t) => {
            let inner = Ray { origin: sp_vsub(r.origin, t.offset), direction: r.direction };
            let res = sp_hit(*t.object, inner, t_min, t_max, s);
            (
                match res.0 {
                    Option::Some(rec) => Option::Some(
                        HitRecord { p: sp_vadd(rec.p, t.offset), ..rec },
                    ),
                    Option::None => Option::None,
                },
                res.1,
            )
        },
        Hittable::Rotated(t) => {
            let q = t._rotation;
            let qr = Quaternion { s: q.s, v: crate::vec::sp_vneg(q.v) };
            let inner = Ray {
                origin: crate::quaternion::sp_qrotate(qr, r.origin),
                direction: crate::quaternion::sp_qrotate(qr, r.direction),
            };
            let res = sp_hit(*t._object, inner, t_min, t_max, s);
            (
                match res.0 {
                    Option::Some(rec) => Option::Some(
                        HitRecord {
                            p: crate::quaternion::sp_qrotate(q, rec.p),
                            normal: crate::quaternion::sp_qrotate(q, rec.normal),
                            ..rec
                        },
                    ),
                    Option::None => Option::None,
                },
                res.1,
            )
        },
        Hittable::Empty(_) => (Option::None, s),
    }
}

/// The forward fold of a list query: each object is asked for a hit closer
/// than the best seen so far.
pub open spec fn sp_list_hit(
    objs: Seq<Hittable>,
    i: int,
    r: Ray,
    t_min: int,
    closest: int,
    best: Option<HitRecord>,
    t_max: int,
    s: u64,
) -> (Option<HitRecord>, u64)
    decreases objs, objs.len() - i + 1,
{
    if i < 0 || i >= objs.len() {
        (best, s)
    } else {
        let res = sp_hit(objs[i], r, t_min, closest, s);
        match res.0 {
            Option::Some(rec) => sp_list_hit(
                objs,
                i + 1,
                r,
                t_min,
                rec.t as int,
                Option::Some(rec),
                t_max,
                res.1,
            ),
            Option::None => sp_list_hit(objs, i + 1, r, t_min, closest, best, t_max, res.1),
        }
    }
}

impl Hittable {
    pub open spec fn wf(self) -> bool {
        sp_wf(self)
    }

    /// The nearest intersection in the window `[t_min, t_max]`, drawing from
    /// the generator where a participating medium requires it.
    pub fn hit(&self, r: Ray, t_min: i128, t_max: i128, rng: &mut Rng) -> (res: Option<HitRecord>)
        requires
            self.wf(),
            r.wf(),
            fits(t_min as int),
            fits(t_max as int),
        ensures
            (res, final(rng).state) == sp_hit(*self, r, t_min as int, t_max as int, old(
                rng,
            ).state),
            res matches Option::Some(rec) ==> rec.wf() && fits(rec.t as int),
        decreases *self,
    {
        match self {
            Hittable::Sphere(s) => s.hit(r, t_min, t_max),
            Hittable::Cuboid(c) => c.hit(r, t_min, t_max),
            Hittable::Node(n) => n.hit(r, t_min, t_max, rng),
            Hittable::List(l) => l.hit(r, t_min, t_max, rng),
            Hittable::Medium(m) => m.hit(r, t_min, t_max, rng),
            Hittable::Translated(t) => t.hit(r, t_min, t_max, rng),
            Hittable::Rotated(t) => t.hit(r, t_min, t_max, rng),
            Hittable::Empty(e) => e.hit(r, t_min, t_max),
        }
    }

    /// The bounding box, if this surface has one.
    pub fn bounding_box(&self) -> (res: Option<AABB>)
        requires
            self.wf(),
        ensures
            res == sp_bbox(*self),
            res matches Option::Some(bb) ==> bb.wf(),
        decreases *self,
    {
        match self {
            Hittable::Sphere(s) => Option::Some(s.bounding_box()),
            Hittable::Cuboid(c) => Option::Some(c.bounding_box()),
            Hittable::Node(n) => Option::Some(n.bounding_box()),
            Hittable::List(l) => l.bounding_box(),
            Hittable::Medium(m) => m.bounding_box(),
            Hittable::Translated(t) => t.bounding_box(),
            Hittable::Rotated(t) => t.bounding_box(),
            Hittable::Empty(e) => e.bounding_box(),
        }
    }

    /// The bounding box of a surface that is known to have one.
    pub fn required_bounding_box(&self) -> (bb: AABB)
        requires
            self.wf(),
            sp_bbox(*self) is Some,
        ensures
            Option::Some(bb) == sp_bbox(*self),
            bb.wf(),
    {
        self.bounding_box().unwrap()
    }
}

} // verus!
