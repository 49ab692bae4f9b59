//! The material model: how each surface scatters or emits light, as one
//! closed set of variants with an exact scattering contract.

use vstd::prelude::*;
use crate::fixed::{
    fits, sp_add, sp_sub, sp_mul, sp_div, sp_sqrt, smax, fadd, fsub, fmul, fdiv, fneg, fsqrt,
    fmax, ONE, SCALE,
};
use crate::vec::{
    Vec3, sp_vadd, sp_vsub, sp_vscale, sp_vneg, sp_dot, sp_normalize, sp_length,
};
use crate::ray::Ray;
use crate::util::{Rng, random_in_unit_sphere, drand48, sp_unit_sphere, sp_rng_unit, sp_rng_next};
use crate::texture::{Texture, sp_texture_value, HALF};
use crate::hittable::HitRecord;

verus! {

/// Diffuse reflection with a texture albedo.
pub struct Lambertian {
    pub albedo: Texture,
}

/// Mirror reflection perturbed by a roughness in `[0, ONE]`.
pub struct Metal {
    pub albedo: Texture,
    pub roughness: i128,
}

/// A clear medium that refracts or reflects by the Fresnel probability.
pub struct Dielectric {
    pub refractive_index: i128,
}

/// A surface that only emits.
pub struct DiffuseLight {
    pub emit: Texture,
}

/// The phase function of a participating medium: scatter in a uniformly
/// random direction.
pub struct Isotropic {
    pub albedo: Texture,
}

/// A debugging aid: the surface normal mapped to a color.
pub struct NormalMaterial {}

/// The closed set of material variants.
pub enum Material {
    Lambertian(Lambertian),
    Metal(Metal),
    Dielectric(Dielectric),
    DiffuseLight(DiffuseLight),
    Isotropic(Isotropic),
    Normal(NormalMaterial),
}

/// The mirror image of `v` about the plane with normal `normal`:
/// `v - 2 (v . n) n`.
pub open spec fn sp_reflect(v: Vec3, normal: Vec3) -> Vec3 {
    sp_vsub(v, sp_vscale(normal, sp_mul(2 * ONE, sp_dot(v, normal))))
}

/// Snell refraction of `v` (normalized first) through a surface with
/// outward normal `normal` and index ratio `ni_over_nt`; `None` on total
/// internal reflection.
pub open spec fn sp_refract(v: Vec3, normal: Vec3, ni_over_nt: int) -> Option<Vec3> {
    let uv = sp_normalize(v);
    let dt = sp_dot(uv, normal);
    let discriminant = sp_sub(
        ONE as int,
        sp_mul(sp_mul(ni_over_nt, ni_over_nt), sp_sub(ONE as int, sp_mul(dt, dt))),
    );
    if discriminant > 0 {
        Option::Some(
            sp_vsub(
                sp_vscale(sp_vsub(uv, sp_vscale(normal, dt)), ni_over_nt),
                sp_vscale(normal, sp_sqrt(discriminant)),
            ),
        )
    } else {
        Option::None
    }
}

/// The Schlick approximation of Fresnel reflectance.
pub open spec fn sp_schlick(cosine: int, refractive_index: int) -> int {
    let r0a = sp_div(sp_sub(ONE as int, refractive_index), sp_add(ONE as int, refractive_index));
    let r0 = sp_mul(r0a, r0a);
    let omc = sp_sub(ONE as int, cosine);
    let p5 = sp_mul(sp_mul(sp_mul(sp_mul(omc, omc), omc), omc), omc);
    sp_add(r0, sp_mul(sp_sub(ONE as int, r0), p5))
}

/// What `emitted` returns: the emission texture's value for a light, black
/// for every other material.
pub open spec fn sp_emitted(m: Material, u: int, v: int, p: Vec3) -> Vec3 {
    match m {
        Material::DiffuseLight(d) => sp_texture_value(d.emit, u, v, p),
        _ => Vec3 { _x: 0i128, _y: 0i128, _z: 0i128 },
    }
}

/// What `scatter` returns, together with the generator state afterwards.
pub open spec fn sp_scatter(m: Material, ray_in: Ray, rec: HitRecord, s: u64) -> (
    Option<(Ray, Vec3)>,
    u64,
)
{
    match m {
        Material::Lambertian(l) => {
            let sampled = sp_unit_sphere(s, 64);
            let target = sp_vadd(sp_vadd(rec.p, rec.normal), sampled.0);
            let scattered = Ray { origin: rec.p, direction: sp_vsub(target, rec.p) };
            let albedo = sp_texture_value(l.albedo, rec.u as int, rec.v as int, rec.p);
            (Option::Some((scattered, albedo)), sampled.1)
        },
        Material::Metal(mt) => {
            let reflected = sp_reflect(sp_normalize(ray_in.direction), rec.normal);
            let sampled = sp_unit_sphere(s, 64);
            let scattered = Ray {
                origin: rec.p,
                direction: sp_vadd(reflected, sp_vscale(sampled.0, mt.roughness as int)),
            };
            if sp_dot(scattered.direction, rec.normal) > 0 {
                let albedo = sp_texture_value(mt.albedo, rec.u as int, rec.v as int, rec.p);
                (Option::Some((scattered, albedo)), sampled.1)
            } else {
                (Option::None, sampled.1)
            }
        },
        Material::Dielectric(d) => sp_dielectric_scatter(d, ray_in, rec, s),
        Material::DiffuseLight(_) => (Option::None, s),
        Material::Isotropic(i) => {
            let sampled = sp_unit_sphere(s, 64);
            let scattered = Ray { origin: rec.p, direction: sampled.0 };
            let attenuation = sp_texture_value(i.albedo, rec.u as int, rec.v as int, rec.p);
            (Option::Some((scattered, attenuation)), sampled.1)
        },
        Material::Normal(_) => {
            let sampled = sp_unit_sphere(s, 64);
            let target = sp_vadd(sp_vadd(rec.p, rec.normal), sampled.0);
            let scattered = Ray { origin: rec.p, direction: sp_vsub(target, rec.p) };
            let attenuation = sp_vscale(sp_vadd(rec.normal, Vec3 { _x: ONE, _y: ONE, _z: ONE }), HALF as int);
            (Option::Some((scattered, attenuation)), sampled.1)
        },
    }
}

/// The dielectric case: the side of the surface fixes the outward normal,
/// the index ratio and the Fresnel cosine (whose square-root argument is
/// clamped at zero where floating point would have produced a non-finite
/// value); refraction is attempted, and on success a uniform draw against
/// the Schlick reflectance picks reflection or refraction.  Attenuation is
/// always white.
pub open spec fn sp_dielectric_scatter(d: Dielectric, ray_in: Ray, rec: HitRecord, s: u64) -> (
    Option<(Ray, Vec3)>,
    u64,
)
{
    let reflected = sp_reflect(ray_in.direction, rec.normal);
    let attenuation = Vec3 { _x: ONE, _y: ONE, _z: ONE };
    let din = sp_dot(ray_in.direction, rec.normal);
    let outward_normal = if din > 0 {
        sp_vneg(rec.normal)
    } else {
        rec.normal
    };
    let ni_over_nt = if din > 0 {
        d.refractive_index as int
    } else {
        sp_div(ONE as int, d.refractive_index as int)
    };
    let cosine = if din > 0 {
        let c0 = sp_div(din, sp_length(ray_in.direction));
        sp_sqrt(
            smax(
                sp_sub(
                    ONE as int,
                    sp_mul(
                        sp_mul(d.refractive_index as int, d.refractive_index as int),
                        sp_sub(ONE as int, sp_mul(c0, c0)),
                    ),
                ),
                0,
            ),
        )
    } else {
        sp_div(-din, sp_length(ray_in.direction))
    };
    match sp_refract(ray_in.direction, outward_normal, ni_over_nt) {
        Option::None => {
            (Option::Some((Ray { origin: rec.p, direction: reflected }, attenuation)), s)
        },
        Option::Some(refracted) => {
            let refracted_prob = sp_schlick(cosine, d.refractive_index as int);
            let u = sp_rng_unit(s);
            let s1 = sp_rng_next(s);
            if u < refracted_prob {
                (Option::Some((Ray { origin: rec.p, direction: reflected }, attenuation)), s1)
            } else {
                let origin = sp_vsub(
                    rec.p,
                    sp_vscale(outward_normal, sp_mul(2 * ONE, crate::EPSILON as int)),
                );
                (Option::Some((Ray { origin, direction: refracted }, attenuation)), s1)
            }
        },
    }
}

/// A dielectric with refractive index exactly one never bends a ray: with a
/// unit index ratio, refraction returns the (normalized) incoming direction
/// unchanged.  At scalar precision this holds wherever the square root of
/// the squared cosine is exact (the hypothesis below); the rounding steps
/// vanish and the refracted direction equals the unit incoming direction.
pub proof fn lemma_unit_index_never_bends(v: Vec3, n: Vec3)
    requires
        crate::fixed::mag(sp_normalize(v)._x as int) <= 2 * ONE,
        crate::fixed::mag(sp_normalize(v)._y as int) <= 2 * ONE,
        crate::fixed::mag(sp_normalize(v)._z as int) <= 2 * ONE,
        crate::fixed::mag(sp_dot(sp_normalize(v), n)) <= 4 * ONE,
        crate::fixed::mag(n._x as int) <= 2 * ONE,
        crate::fixed::mag(n._y as int) <= 2 * ONE,
        crate::fixed::mag(n._z as int) <= 2 * ONE,
        sp_mul(sp_dot(sp_normalize(v), n), sp_dot(sp_normalize(v), n)) > 0,
        sp_sqrt(
            sp_mul(sp_dot(sp_normalize(v), n), sp_dot(sp_normalize(v), n)),
        ) == -sp_dot(sp_normalize(v), n),
    ensures
        sp_refract(v, n, ONE as int) == Option::Some(sp_normalize(v)),
{
    let uv = sp_normalize(v);
    let dt = sp_dot(uv, n);
    crate::fixed::lemma_sp_mul_one(ONE as int);
    crate::fixed::lemma_sp_mul_bound(dt, dt, 4 * ONE, 4 * ONE);
    crate::vec::lemma_sq_nonneg(dt);
    let dtsq = sp_mul(dt, dt);
    assert((4 * ONE) * (4 * ONE) == (SCALE as int) * (16 * ONE)) by (nonlinear_arith);
    vstd::arithmetic::div_mod::lemma_div_multiples_vanish(16 * ONE, SCALE as int);
    assert(0 <= dtsq <= 16 * ONE);
    let inner = sp_sub(ONE as int, dtsq);
    crate::fixed::lemma_sp_mul_one(inner);
    let disc = sp_sub(ONE as int, sp_mul(sp_mul(ONE as int, ONE as int), inner));
    assert(disc == dtsq);
    let md = sp_vscale(n, dt);
    let w = sp_vsub(uv, md);
    crate::fixed::lemma_sp_mul_bound(n._x as int, dt, 2 * ONE, 4 * ONE);
    crate::fixed::lemma_sp_mul_bound(n._y as int, dt, 2 * ONE, 4 * ONE);
    crate::fixed::lemma_sp_mul_bound(n._z as int, dt, 2 * ONE, 4 * ONE);
    assert((2 * ONE) * (4 * ONE) == (SCALE as int) * (8 * ONE)) by (nonlinear_arith);
    vstd::arithmetic::div_mod::lemma_div_multiples_vanish(8 * ONE, SCALE as int);
    crate::fixed::lemma_sp_mul_one(w._x as int);
    crate::fixed::lemma_sp_mul_one(w._y as int);
    crate::fixed::lemma_sp_mul_one(w._z as int);
    crate::fixed::lemma_sp_mul_neg(n._x as int, dt);
    crate::fixed::lemma_sp_mul_neg(n._y as int, dt);
    crate::fixed::lemma_sp_mul_neg(n._z as int, dt);
    assert(sp_refract(v, n, ONE as int) == Option::Some(sp_vsub(sp_vscale(w, ONE as int), sp_vscale(n, -dt))));
    assert(sp_vsub(sp_vscale(w, ONE as int), sp_vscale(n, -dt)) == uv);
}

/// Well-formedness of a material.
pub open spec fn sp_material_wf(m: Material) -> bool {
    match m {
        Material::Lambertian(l) => l.albedo.wf(),
        Material::Metal(mt) => mt.albedo.wf() && fits(mt.roughness as int),
        Material::Dielectric(d) => fits(d.refractive_index as int),
        Material::DiffuseLight(dl) => dl.emit.wf(),
        Material::Isotropic(i) => i.albedo.wf(),
        Material::Normal(_) => true,
    }
}

impl Lambertian {
    pub fn new(albedo: Texture) -> (m: Lambertian)
        requires
            albedo.wf(),
        ensures
            m.albedo == albedo,
            sp_material_wf(Material::Lambertian(m)),
    {
        Lambertian { albedo }
    }
}

impl Metal {
    /// The roughness is clamped down to one.
    pub fn new(albedo: Texture, roughness: i128) -> (m: Metal)
        requires
            albedo.wf(),
            fits(roughness as int),
        ensures
            m.albedo == albedo,
            m.roughness == if roughness <= ONE { roughness as int } else { ONE as int },
            sp_material_wf(Material::Metal(m)),
    {
        let r = if roughness <= ONE {
            roughness
        } else {
            ONE
        };
        Metal { albedo, roughness: r }
    }
}

impl Dielectric {
    pub fn new(refractive_index: i128) -> (m: Dielectric)
        requires
            fits(refractive_index as int),
        ensures
            m.refractive_index == refractive_index,
            sp_material_wf(Material::Dielectric(m)),
    {
        Dielectric { refractive_index }
    }
}

impl DiffuseLight {
    pub fn new(emit: Texture) -> (m: DiffuseLight)
        requires
            emit.wf(),
        ensures
            m.emit == emit,
            sp_material_wf(Material::DiffuseLight(m)),
    {
        DiffuseLight { emit }
    }
}

impl Isotropic {
    pub fn new(albedo: Texture) -> (m: Isotropic)
        requires
            albedo.wf(),
        ensures
            m.albedo == albedo,
            sp_material_wf(Material::Isotropic(m)),
    {
        Isotropic { albedo }
    }
}

impl NormalMaterial {
    pub fn new() -> (m: NormalMaterial)
        ensures
            m == (NormalMaterial {  }),
    {
        NormalMaterial {  }
    }
}

impl Material {
    pub open spec fn wf(self) -> bool {
        sp_material_wf(self)
    }

    /// The scattered ray and attenuation, or absorption.
    pub fn scatter(&self, ray_in: &Ray, hit_record: &HitRecord, rng: &mut Rng) -> (res: Option<
        (Ray, Vec3),
    >)
        requires
            self.wf(),
            ray_in.wf(),
            hit_record.wf(),
        ensures
            (res, final(rng).state) == sp_scatter(*self, *ray_in, *hit_record, old(rng).state),
            res matches Option::Some(rv) ==> rv.0.wf() && rv.1.wf(),
    {
        match self {
            Material::Lambertian(l) => {
                let sampled = random_in_unit_sphere(rng);
                let target = hit_record.p.add(hit_record.normal).add(sampled);
                let scattered = Ray::new(hit_record.p, target.sub(hit_record.p));
                let albedo = l.albedo.value(hit_record.u, hit_record.v, hit_record.p);
                Option::Some((scattered, albedo))
            },
            Material::Metal(mt) => {
                let reflected = reflect(ray_in.direction.normalize(), hit_record.normal);
                let sampled = random_in_unit_sphere(rng);
                let scattered = Ray::new(
                    hit_record.p,
                    reflected.add(sampled.scale(mt.roughness)),
                );
                if Vec3::dot(scattered.direction, hit_record.normal) > 0 {
                    let albedo = mt.albedo.value(hit_record.u, hit_record.v, hit_record.p);
                    Option::Some((scattered, albedo))
                } else {
                    Option::None
                }
            },
            Material::Dielectric(d) => {
                let reflected = reflect(ray_in.direction, hit_record.normal);
                let attenuation = Vec3::one();
                let din = Vec3::dot(ray_in.direction, hit_record.normal);
                let outward_normal: Vec3;
                let ni_over_nt: i128;
                let cosine: i128;
                if din > 0 {
                    outward_normal = hit_record.normal.neg();
                    ni_over_nt = d.refractive_index;
                    let c0 = fdiv(din, ray_in.direction.length());
                    cosine = fsqrt(
                        fmax(
                            fsub(
                                ONE,
                                fmul(
                                    fmul(d.refractive_index, d.refractive_index),
                                    fsub(ONE, fmul(c0, c0)),
                                ),
                            ),
                            0,
                        ),
                    );
                } else {
                    outward_normal = hit_record.normal;
                    ni_over_nt = fdiv(ONE, d.refractive_index);
                    cosine = fdiv(fneg(din), ray_in.direction.length());
                }
                match refract(ray_in.direction, outward_normal, ni_over_nt) {
                    Option::None => {
                        let scattered = Ray::new(hit_record.p, reflected);
                        Option::Some((scattered, attenuation))
                    },
                    Option::Some(refracted) => {
                        let refracted_prob = schlick(cosine, d.refractive_index);
                        let u = drand48(rng);
                        if u < refracted_prob {
                            let scattered = Ray::new(hit_record.p, reflected);
                            Option::Some((scattered, attenuation))
                        } else {
                            let origin = hit_record.p.sub(
                                outward_normal.scale(fmul(2 * ONE, crate::EPSILON)),
                            );
                            let scattered = Ray::new(origin, refracted);
                            Option::Some((scattered, attenuation))
                        }
                    },
                }
            },
            Material::DiffuseLight(_) => Option::None,
            Material::Isotropic(i) => {
                let sampled = random_in_unit_sphere(rng);
                let scattered = Ray::new(hit_record.p, sampled);
                let attenuation = i.albedo.value(hit_record.u, hit_record.v, hit_record.p);
                Option::Some((scattered, attenuation))
            },
            Material::Normal(_) => {
                let sampled = random_in_unit_sphere(rng);
                let target = hit_record.p.add(hit_record.normal).add(sampled);
                let scattered = Ray::new(hit_record.p, target.sub(hit_record.p));
                let attenuation = hit_record.normal.add(Vec3::one()).scale(HALF);
                Option::Some((scattered, attenuation))
            },
        }
    }

    /// The emitted radiance at the given surface coordinates and point.
    pub fn emitted(&self, u: i128, v: i128, p: Vec3) -> (r: Vec3)
        requires
            self.wf(),
            fits(u as int),
            fits(v as int),
            p.wf(),
        ensures
            r == sp_emitted(*self, u as int, v as int, p),
            r.wf(),
    {
        match self {
            Material::DiffuseLight(d) => d.emit.value(u, v, p),
            _ => Vec3::zero(),
        }
    }
}

/// The mirror image of `v` about the plane with normal `normal`.
pub fn reflect(v: Vec3, normal: Vec3) -> (r: Vec3)
    requires
        v.wf(),
        normal.wf(),
    ensures
        r == sp_reflect(v, normal),
        r.wf(),
{
    v.sub(normal.scale(fmul(2 * ONE, Vec3::dot(v, normal))))
}

/// Snell refraction; `None` means total internal reflection.
pub fn refract(v: Vec3, normal: Vec3, ni_over_nt: i128) -> (r: Option<Vec3>)
    requires
        v.wf(),
        normal.wf(),
        fits(ni_over_nt as int),
    ensures
        r == sp_refract(v, normal, ni_over_nt as int),
        r matches Option::Some(w) ==> w.wf(),
{
    let uv = v.normalize();
    let dt = Vec3::dot(uv, normal);
    let descriminant = fsub(ONE, fmul(fmul(ni_over_nt, ni_over_nt), fsub(ONE, fmul(dt, dt))));
    if descriminant > 0 {
        let refracted = uv.sub(normal.scale(dt)).scale(ni_over_nt).sub(
            normal.scale(fsqrt(descriminant)),
        );
        Option::Some(refracted)
    } else {
        Option::None
    }
}

/// The Schlick approximation of Fresnel reflectance.
pub fn schlick(cosine: i128, refractive_index: i128) -> (r: i128)
    requires
        fits(cosine as int),
        fits(refractive_index as int),
    ensures
        r == sp_schlick(cosine as int, refractive_index as int),
        fits(r as int),
{
    let r0a = fdiv(fsub(ONE, refractive_index), fadd(ONE, refractive_index));
    let r0 = fmul(r0a, r0a);
    let omc = fsub(ONE, cosine);
    let p5 = fmul(fmul(fmul(fmul(omc, omc), omc), omc), omc);
    fadd(r0, fmul(fsub(ONE, r0), p5))
}

} // verus!
