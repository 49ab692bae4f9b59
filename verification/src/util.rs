//! Seeded pseudo-randomness and small numeric helpers.
//!
//! Every random draw comes from an explicit, seeded generator state that is
//! passed in by the caller, so a render with a fixed seed is a pure function
//! of its inputs; sharing one mutable generator across workers is avoided by
//! construction.

use vstd::prelude::*;
use crate::fixed::{fits, smax, tdiv, mag, sp_mul, sp_sub, ONE, SCALE};
use crate::vec::{Vec3, sp_vscale, sp_vsub, sp_length_squared, sp_dot, lemma_length_squared_nonneg};

verus! {

/// The circle constant, in scalar units (the nearest scalar to pi).
pub const PI: i128 = 205887;

/// Half of `PI`, in scalar units.
pub const HALF_PI: i128 = 102943;

/// Twice `PI`, in scalar units.
pub const TWO_PI: i128 = 411775;

/// A splitmix-style generator: a 64-bit counter state advanced by a fixed
/// odd increment, whose output is the state passed through a mixing function.
#[derive(Clone, Copy, Debug, PartialEq, Eq, Structural)]
pub struct Rng {
    pub state: u64,
}

/// The state after one draw.
pub open spec fn sp_rng_next(s: u64) -> u64 {
    vstd::wrapping::u64_specs::wrapping_add(s, 0x9E3779B97F4A7C15u64)
}

/// The mixing function applied to the advanced state to form the output.
pub open spec fn sp_rng_mix(s: u64) -> u64 {
    let z0 = s ^ (s >> 30);
    let z1 = vstd::wrapping::u64_specs::wrapping_mul(z0, 0xBF58476D1CE4E5B9u64);
    let z2 = z1 ^ (z1 >> 27);
    let z3 = vstd::wrapping::u64_specs::wrapping_mul(z2, 0x94D049BB133111EBu64);
    z3 ^ (z3 >> 31)
}

/// The scalar in `[0, ONE)` drawn from state `s` (top 16 bits of the mix).
pub open spec fn sp_rng_unit(s: u64) -> int {
    (sp_rng_mix(sp_rng_next(s)) >> 48) as int
}

impl Rng {
    /// A generator starting from the given seed.
    pub fn new(seed: u64) -> (r: Rng)
        ensures
            r.state == seed,
    {
        Rng { state: seed }
    }

    /// Advances the state and returns the mixed output.
    pub fn next_u64(&mut self) -> (r: u64)
        ensures
            final(self).state == sp_rng_next(old(self).state),
            r == sp_rng_mix(sp_rng_next(old(self).state)),
    {
        let s = self.state;
        let ns = s.wrapping_add(0x9E3779B97F4A7C15u64);
        self.state = ns;
        let z0 = ns ^ (ns >> 30);
        let z1 = z0.wrapping_mul(0xBF58476D1CE4E5B9u64);
        let z2 = z1 ^ (z1 >> 27);
        let z3 = z2.wrapping_mul(0x94D049BB133111EBu64);
        z3 ^ (z3 >> 31)
    }
}

/// A uniform scalar in `[0, ONE)`, i.e. a fixed-point value in `[0, 1)`.
pub fn drand48(rng: &mut Rng) -> (r: i128)
    ensures
        final(rng).state == sp_rng_next(old(rng).state),
        r == sp_rng_unit(old(rng).state),
        0 <= r < ONE,
        fits(r as int),
{
    let x = rng.next_u64();
    let top = x >> 48;
    proof {
        assert(x >> 48 < 65536u64) by (bit_vector);
    }
    top as i128
}

/// The candidate point drawn from one triple of unit draws: each component
/// uniform in `[-ONE, ONE)`.
pub open spec fn sp_sphere_candidate(d1: int, d2: int, d3: int) -> Vec3 {
    sp_vsub(
        sp_vscale(Vec3 { _x: d1 as i128, _y: d2 as i128, _z: d3 as i128 }, 2 * ONE),
        Vec3 { _x: ONE, _y: ONE, _z: ONE },
    )
}

/// The rejection sampler unrolled: candidates are drawn until one lands
/// strictly inside the unit sphere; after `tries` rejections the center is
/// returned (a bounded tail in place of an unbounded search).
pub open spec fn sp_unit_sphere(s: u64, tries: nat) -> (Vec3, u64)
    decreases tries,
{
    let d1 = sp_rng_unit(s);
    let s1 = sp_rng_next(s);
    let d2 = sp_rng_unit(s1);
    let s2 = sp_rng_next(s1);
    let d3 = sp_rng_unit(s2);
    let s3 = sp_rng_next(s2);
    let p = sp_sphere_candidate(d1, d2, d3);
    if sp_length_squared(p) < ONE {
        (p, s3)
    } else if tries == 0 {
        (Vec3 { _x: 0i128, _y: 0i128, _z: 0i128 }, s3)
    } else {
        sp_unit_sphere(s3, (tries - 1) as nat)
    }
}

fn random_in_unit_sphere_from(rng: &mut Rng, tries: u32) -> (v: Vec3)
    ensures
        (v, final(rng).state) == sp_unit_sphere(old(rng).state, tries as nat),
        v.wf(),
    decreases tries,
{
    let d1 = drand48(rng);
    let d2 = drand48(rng);
    let d3 = drand48(rng);
    let p = Vec3::new(d1, d2, d3).scale(2 * ONE).sub(Vec3::one());
    if p.length_squared() < ONE {
        p
    } else if tries == 0 {
        Vec3::zero()
    } else {
        random_in_unit_sphere_from(rng, tries - 1)
    }
}

/// A point inside the unit sphere, by rejection sampling.
pub fn random_in_unit_sphere(rng: &mut Rng) -> (v: Vec3)
    ensures
        (v, final(rng).state) == sp_unit_sphere(old(rng).state, 64nat),
        v.wf(),
{
    random_in_unit_sphere_from(rng, 64)
}

/// The candidate point for the disk sampler: z is zero.
pub open spec fn sp_disk_candidate(d1: int, d2: int) -> Vec3 {
    sp_vsub(
        sp_vscale(Vec3 { _x: d1 as i128, _y: d2 as i128, _z: 0i128 }, 2 * ONE),
        Vec3 { _x: ONE, _y: ONE, _z: 0i128 },
    )
}

/// The disk rejection sampler unrolled, as for the sphere.
pub open spec fn sp_unit_disk(s: u64, tries: nat) -> (Vec3, u64)
    decreases tries,
{
    let d1 = sp_rng_unit(s);
    let s1 = sp_rng_next(s);
    let d2 = sp_rng_unit(s1);
    let s2 = sp_rng_next(s1);
    let p = sp_disk_candidate(d1, d2);
    if sp_dot(p, p) < ONE {
        (p, s2)
    } else if tries == 0 {
        (Vec3 { _x: 0i128, _y: 0i128, _z: 0i128 }, s2)
    } else {
        sp_unit_disk(s2, (tries - 1) as nat)
    }
}

fn random_in_unit_disk_from(rng: &mut Rng, tries: u32) -> (v: Vec3)
    ensures
        (v, final(rng).state) == sp_unit_disk(old(rng).state, tries as nat),
        v.wf(),
    decreases tries,
{
    let d1 = drand48(rng);
    let d2 = drand48(rng);
    let p = Vec3::new(d1, d2, 0).scale(2 * ONE).sub(Vec3::new(ONE, ONE, 0));
    if Vec3::dot(p, p) < ONE {
        p
    } else if tries == 0 {
        Vec3::zero()
    } else {
        random_in_unit_disk_from(rng, tries - 1)
    }
}

/// A point inside the unit disk (z = 0), by rejection sampling.
pub fn random_in_unit_disk(rng: &mut Rng) -> (v: Vec3)
    ensures
        (v, final(rng).state) == sp_unit_disk(old(rng).state, 64nat),
        v.wf(),
{
    random_in_unit_disk_from(rng, 64)
}

/// What `degrees_to_radians` returns.
pub open spec fn sp_deg_to_rad(d: int) -> int {
    crate::fixed::sp_div(sp_mul(d, PI as int), 180 * ONE)
}

/// Degrees to radians, in scalar units.
pub fn degrees_to_radians(degrees: i128) -> (r: i128)
    requires
        fits(degrees as int),
    ensures
        r == sp_deg_to_rad(degrees as int),
        fits(r as int),
{
    crate::fixed::fdiv(crate::fixed::fmul(degrees, PI), 180 * ONE)
}

/// What `radians_to_degrees` returns.
pub open spec fn sp_rad_to_deg(x: int) -> int {
    crate::fixed::sp_div(sp_mul(x, 180 * ONE), PI as int)
}

/// Radians to degrees, in scalar units.
pub fn radians_to_degrees(radians: i128) -> (r: i128)
    requires
        fits(radians as int),
    ensures
        r == sp_rad_to_deg(radians as int),
        fits(r as int),
{
    crate::fixed::fdiv(crate::fixed::fmul(radians, 180 * ONE), PI)
}

/// Tolerant scalar comparison: the difference is at most one representation
/// step per unit of the larger magnitude involved (with a floor of one unit).
pub open spec fn sp_approx_equal(a: int, b: int) -> bool {
    mag(a - b) <= tdiv(smax(smax(a, b), ONE as int), SCALE as int)
}

/// Tolerant scalar comparison.
pub fn approx_equal(a: i128, b: i128) -> (r: bool)
    requires
        fits(a as int),
        fits(b as int),
    ensures
        r == sp_approx_equal(a as int, b as int),
{
    let d = crate::fixed::fabs(crate::fixed::fsub(a, b));
    let m = crate::fixed::fmax(crate::fixed::fmax(a, b), ONE);
    proof {
        assert(mag(a - b) <= mag(a as int) + mag(b as int));
    }
    d <= m / SCALE
}

/// Packs four two-bit lane selectors into the immediate operand layout used
/// by vector shuffles.
pub fn mm_shuffle(z: u32, y: u32, x: u32, w: u32) -> (r: i32)
    requires
        z < 4,
        y < 4,
        x < 4,
        w < 4,
    ensures
        r == z * 64 + y * 16 + x * 4 + w,
{
    let v = (z << 6u32) | (y << 4u32) | (x << 2u32) | w;
    proof {
        let z = z;
        let y = y;
        let x = x;
        let w = w;
        assert(z < 4 && y < 4 && x < 4 && w < 4 ==> ((z << 6u32) | (y << 4u32) | (x << 2u32) | w)
            == z * 64 + y * 16 + x * 4 + w) by (bit_vector);
    }
    v as i32
}

/// Splits a duration in whole seconds into hours, minutes and seconds.
pub fn human_readable_time(seconds: u64) -> (r: (u64, u64, u64))
    ensures
        r.0 == seconds / 3600,
        r.1 == (seconds % 3600) / 60,
        r.2 == seconds % 60,
        r.1 < 60,
        r.2 < 60,
        r.0 * 3600 + r.1 * 60 + r.2 == seconds,
{
    let h = seconds / 3600;
    let rem = seconds % 3600;
    let m = rem / 60;
    let s = rem % 60;
    proof {
        assert(seconds / 3600 * 3600 + (seconds % 3600) / 60 * 60 + seconds % 3600 % 60
            == seconds) by (nonlinear_arith);
        assert(seconds % 3600 % 60 == seconds % 60) by (nonlinear_arith);
    }
    (h, m, s)
}

} // verus!
