//! The integrator: per-pixel multi-sample path tracing against the scene
//! root, composing emission and scattered radiance recursively, with a hard
//! recursion cap of fifty bounces.

use vstd::prelude::*;
use crate::fixed::{
    fits, sp_add, sp_mul, sp_div, sp_sqrt, tdiv, fadd, fmul, fdiv, fsqrt, SAT, ONE,
};
use crate::vec::{Vec3, sp_vadd, sp_vmul, sp_vscale, sp_vdiv_s, sp_normalize};
use crate::ray::Ray;
use crate::camera::{Camera, sp_get_ray};
use crate::util::{Rng, drand48, sp_rng_unit, sp_rng_next};
use crate::hittable::{Hittable, HitRecord, sp_hit, sp_wf};
use crate::material::{Material, sp_scatter, sp_emitted, sp_material_wf};

verus! {

/// The recursion cap: at this depth the integrator returns the emitted term
/// alone, with no further trace.
pub const MAX_DEPTH: u32 = 50;

/// The quantization factor: the scalar for 255.99, deliberately short of
/// 256 so that a channel at exactly one maps to 255.
pub const QUANTIZE_FACTOR: i128 = 16776560;

/// A sky gradient: white at the horizon blended toward blue upward.
pub struct GradientBackground {}

/// What the gradient background returns for a ray.
pub open spec fn sp_gradient(ray: Ray) -> Vec3 {
    let unit_direction = sp_normalize(ray.direction);
    let t = sp_mul(crate::texture::HALF as int, sp_add(unit_direction._y as int, ONE as int));
    sp_vadd(
        sp_vscale(Vec3 { _x: ONE, _y: ONE, _z: ONE }, sp_add(ONE as int, -t)),
        sp_vscale(Vec3 { _x: 32768i128, _y: 45875i128, _z: ONE }, t),
    )
}

impl GradientBackground {
    /// White blended toward blue by the ray's upward component.
    pub fn get(&self, ray: Ray) -> (r: Vec3)
        requires
            ray.wf(),
        ensures
            r == sp_gradient(ray),
            r.wf(),
    {
        let unit_direction = ray.direction.normalize();
        let t = fmul(crate::texture::HALF, fadd(unit_direction._y, ONE));
        Vec3::one().scale(fadd(ONE, -t)).add(Vec3::new(32768, 45875, ONE).scale(t))
    }
}

/// The renderer: image dimensions, sample count, camera, the scene root,
/// the optional background, and the arena of materials that hit records
/// index into.
pub struct Renderer {
    pub width: u32,
    pub height: u32,
    pub samples: u32,
    pub objects: Hittable,
    pub camera: Camera,
    pub background: Option<GradientBackground>,
    pub materials: Vec<Material>,
}

/// Well-formedness of a whole scene.
pub open spec fn sp_renderer_wf(ren: Renderer) -> bool {
    &&& sp_wf(ren.objects)
    &&& ren.camera.wf()
    &&& forall|i: int|
        0 <= i < ren.materials@.len() ==> sp_material_wf(#[trigger] ren.materials@[i])
    &&& ren.width >= 1
    &&& ren.height >= 1
    &&& ren.samples >= 1
}

/// The emitted term of a hit: the indexed material's emission, or black
/// where the record's index lies outside the arena (an index outside the
/// arena behaves as an inert black material).
pub open spec fn sp_emitted_term(ren: Renderer, rec: HitRecord) -> Vec3 {
    if rec.material < ren.materials@.len() {
        sp_emitted(ren.materials@[rec.material as int], rec.u as int, rec.v as int, rec.p)
    } else {
        Vec3 { _x: 0i128, _y: 0i128, _z: 0i128 }
    }
}

/// One radiance estimate: the nearest hit's emission plus, below the depth
/// cap, the attenuated radiance of the scattered ray (respawned a small
/// offset along the normal); on a miss, the background.
pub open spec fn sp_trace(ren: Renderer, ray: Ray, depth: u32, s: u64) -> (Vec3, u64)
    decreases MAX_DEPTH - depth,
{
    let h = sp_hit(ren.objects, ray, 0, SAT as int, s);
    match h.0 {
        Option::None => (
            match ren.background {
                Option::Some(_) => sp_gradient(ray),
                Option::None => Vec3 { _x: 0i128, _y: 0i128, _z: 0i128 },
            },
            h.1,
        ),
        Option::Some(rec) => {
            let emitted = sp_emitted_term(ren, rec);
            if depth >= MAX_DEPTH || rec.material >= ren.materials@.len() {
                (emitted, h.1)
            } else {
                let sc = sp_scatter(ren.materials@[rec.material as int], ray, rec, h.1);
                match sc.0 {
                    Option::Some(sv) => {
                        let nray = Ray {
                            origin: sp_vadd(
                                sv.0.origin,
                                sp_vscale(rec.normal, crate::EPSILON as int),
                            ),
                            direction: sv.0.direction,
                        };
                        let deeper = sp_trace(ren, nray, (depth + 1) as u32, sc.1);
                        (sp_vadd(emitted, sp_vmul(sv.1, deeper.0)), deeper.1)
                    },
                    Option::None => (emitted, sc.1),
                }
            }
        },
    }
}

/// At the depth cap, the integrator returns exactly the emitted term of the
/// nearest hit, with no further recursive trace.
pub proof fn lemma_trace_depth_capped(ren: Renderer, ray: Ray, depth: u32, s: u64)
    requires
        depth >= MAX_DEPTH,
    ensures
        sp_trace(ren, ray, depth, s) == (match sp_hit(ren.objects, ray, 0, SAT as int, s).0 {
            Option::Some(rec) => (
                sp_emitted_term(ren, rec),
                sp_hit(ren.objects, ray, 0, SAT as int, s).1,
            ),
            Option::None => (
                match ren.background {
                    Option::Some(_) => sp_gradient(ray),
                    Option::None => Vec3 { _x: 0i128, _y: 0i128, _z: 0i128 },
                },
                sp_hit(ren.objects, ray, 0, SAT as int, s).1,
            ),
        }),
{
}

/// The sample accumulation: `samples - i` more jittered camera rays are
/// traced and summed onto `acc`.
pub open spec fn sp_sample_sum(ren: Renderer, u: int, v: int, i: int, acc: Vec3, s: u64) -> (
    Vec3,
    u64,
)
    decreases ren.samples - i,
{
    if i < 0 || i >= ren.samples {
        (acc, s)
    } else {
        let d1 = sp_rng_unit(s);
        let s1 = sp_rng_next(s);
        let d2 = sp_rng_unit(s1);
        let s2 = sp_rng_next(s1);
        let uu = sp_div(sp_add(u, d1), (ren.width as int) * (ONE as int));
        let vv = sp_div(sp_add(v, d2), (ren.height as int) * (ONE as int));
        let rs = sp_get_ray(ren.camera, uu, vv, s2);
        let tr = sp_trace(ren, rs.0, 0, rs.1);
        sp_sample_sum(ren, u, v, i + 1, sp_vadd(acc, tr.0), tr.1)
    }
}

/// The color of the pixel at continuous coordinates `(u, v)`: the average
/// of `samples` jittered radiance estimates.  The result is a function of
/// the scene, the coordinates and the seed alone: a render with a fixed
/// seed is reproducible.
pub open spec fn sp_color_at(ren: Renderer, u: int, v: int, s: u64) -> (Vec3, u64) {
    let sum = sp_sample_sum(ren, u, v, 0, Vec3 { _x: 0i128, _y: 0i128, _z: 0i128 }, s);
    (sp_vdiv_s(sum.0, (ren.samples as int) * (ONE as int)), sum.1)
}

/// One gamma-corrected channel: the square root (a saturating zero below).
pub open spec fn sp_gamma(c: int) -> int {
    if c < 0 {
        0
    } else {
        sp_sqrt(c)
    }
}

/// One quantized channel: `floor(255.99 * c)`, saturated into `[0, 255]`.
pub open spec fn sp_quantize(c: int) -> int {
    let scaled = sp_mul(QUANTIZE_FACTOR as int, c);
    if scaled < 0 {
        0
    } else {
        let q = tdiv(scaled, ONE as int);
        if q > 255 {
            255
        } else {
            q
        }
    }
}

/// Rendering is reproducible: the color of a pixel is a pure function of
/// the scene, the pixel coordinates and the generator seed, so two renders
/// of the same scene from the same seed agree everywhere.  (The contract of
/// `Renderer::color_at` pins its result to `sp_color_at`, which makes this
/// immediate.)
pub proof fn lemma_render_deterministic(ren: Renderer, u: int, v: int, s1: u64, s2: u64)
    requires
        s1 == s2,
    ensures
        sp_color_at(ren, u, v, s1) == sp_color_at(ren, u, v, s2),
{
}

/// The quantization brackets its range: every channel lands in `[0, 255]`,
/// a channel at exactly one maps to 255, and a channel at zero maps to 0.
pub proof fn lemma_quantize_range(c: int)
    ensures
        0 <= sp_quantize(c) <= 255,
        sp_quantize(ONE as int) == 255,
        sp_quantize(0) == 0,
{
    vstd::arithmetic::div_mod::lemma_div_is_ordered(0, crate::fixed::mag(scaled_of(c)), ONE as int);
    vstd::arithmetic::div_mod::lemma_div_multiples_vanish(QUANTIZE_FACTOR as int, ONE as int);
    assert(sp_mul(QUANTIZE_FACTOR as int, ONE as int) == QUANTIZE_FACTOR);
    vstd::arithmetic::div_mod::lemma_fundamental_div_mod_converse(
        QUANTIZE_FACTOR as int,
        ONE as int,
        255,
        64880,
    );
}

/// Helper naming the scaled channel inside the quantizer.
spec fn scaled_of(c: int) -> int {
    sp_mul(QUANTIZE_FACTOR as int, c)
}

impl Renderer {
    pub open spec fn wf(self) -> bool {
        sp_renderer_wf(self)
    }

    pub fn new(
        width: u32,
        height: u32,
        samples: u32,
        camera: Camera,
        objects: Hittable,
        background: Option<GradientBackground>,
        materials: Vec<Material>,
    ) -> (ren: Renderer)
        requires
            width >= 1,
            height >= 1,
            samples >= 1,
            camera.wf(),
            sp_wf(objects),
            forall|i: int| 0 <= i < materials@.len() ==> sp_material_wf(#[trigger] materials@[i]),
        ensures
            ren == (Renderer { width, height, samples, objects, camera, background, materials }),
            ren.wf(),
    {
        Renderer { width, height, samples, objects, camera, background, materials }
    }

    /// The averaged color of the pixel at continuous coordinates `(u, v)`;
    /// with a fixed generator seed the result is a pure function of the
    /// scene and the coordinates, so a seeded render is reproducible.
    pub fn color_at(&self, u: i128, v: i128, rng: &mut Rng) -> (col: Vec3)
        requires
            self.wf(),
            fits(u as int),
            fits(v as int),
        ensures
            (col, final(rng).state) == sp_color_at(*self, u as int, v as int, old(rng).state),
            col.wf(),
    {
        let mut col = Vec3::zero();
        let mut i: u32 = 0;
        let ghost s0 = rng.state;
        while i < self.samples
            invariant
                self.wf(),
                fits(u as int),
                fits(v as int),
                i <= self.samples,
                col.wf(),
                sp_sample_sum(*self, u as int, v as int, 0, Vec3 { _x: 0i128, _y: 0i128, _z: 0i128 }, s0)
                    == sp_sample_sum(*self, u as int, v as int, i as int, col, rng.state),
            decreases self.samples - i,
        {
            let d1 = drand48(rng);
            let d2 = drand48(rng);
            let uu = fdiv(fadd(u, d1), (self.width as i128) * ONE);
            let vv = fdiv(fadd(v, d2), (self.height as i128) * ONE);
            let r = self.camera.get_ray(uu, vv, rng);
            let c = self.color_from_ray(r, 0, rng);
            col = col.add(c);
            i = i + 1;
        }
        let divisor = (self.samples as i128) * ONE;
        col.div_scalar(divisor)
    }

    /// One radiance estimate for a ray: emission at the nearest hit plus,
    /// below the depth cap, the attenuated estimate of the scattered ray.
    /// At the cap the emitted term is returned alone: the recursion is
    /// truncated, not probabilistically terminated.
    pub fn color_from_ray(&self, ray: Ray, depth: u32, rng: &mut Rng) -> (col: Vec3)
        requires
            self.wf(),
            ray.wf(),
        ensures
            (col, final(rng).state) == sp_trace(*self, ray, depth, old(rng).state),
            col.wf(),
        decreases MAX_DEPTH - depth,
    {
        match self.objects.hit(ray, 0, SAT, rng) {
            Option::Some(rec) => {
                let emitted = if rec.material < self.materials.len() {
                    self.materials[rec.material].emitted(rec.u, rec.v, rec.p)
                } else {
                    Vec3::zero()
                };
                if depth >= MAX_DEPTH || rec.material >= self.materials.len() {
                    emitted
                } else {
                    match self.materials[rec.material].scatter(&ray, &rec, rng) {
                        Option::Some((scattered, attenuation)) => {
                            let nray = Ray::new(
                                scattered.origin.add(rec.normal.scale(crate::EPSILON)),
                                scattered.direction,
                            );
                            let deeper = self.color_from_ray(nray, depth + 1, rng);
                            emitted.add(attenuation.mul(deeper))
                        },
                        Option::None => emitted,
                    }
                }
            },
            Option::None => {
                match &self.background {
                    Option::Some(bg) => bg.get(ray),
                    Option::None => Vec3::zero(),
                }
            },
        }
    }
}

/// One gamma-corrected channel (square root, with a floor of zero).
pub fn gamma_channel(c: i128) -> (r: i128)
    requires
        fits(c as int),
    ensures
        r == sp_gamma(c as int),
        0 <= r,
        fits(r as int),
{
    if c < 0 {
        0
    } else {
        fsqrt(c)
    }
}

/// One quantized channel: `floor(255.99 * c)` saturated into a byte.
pub fn quantize_channel(c: i128) -> (r: u8)
    requires
        fits(c as int),
    ensures
        r == sp_quantize(c as int),
{
    let scaled = fmul(QUANTIZE_FACTOR, c);
    if scaled < 0 {
        0
    } else {
        let q = scaled / 65536;
        proof {
            vstd::arithmetic::div_mod::lemma_div_is_ordered(0, scaled as int, ONE as int);
        }
        if q > 255 {
            255
        } else {
            q as u8
        }
    }
}

/// A color gamma-corrected and quantized to four bytes (opaque alpha).
pub fn color_to_rgba(color: Vec3) -> (r: [u8; 4])
    requires
        color.wf(),
    ensures
        r[0] == sp_quantize(sp_gamma(color._x as int)),
        r[1] == sp_quantize(sp_gamma(color._y as int)),
        r[2] == sp_quantize(sp_gamma(color._z as int)),
        r[3] == 255,
{
    [
        quantize_channel(gamma_channel(color._x)),
        quantize_channel(gamma_channel(color._y)),
        quantize_channel(gamma_channel(color._z)),
        255,
    ]
}

} // verus!
