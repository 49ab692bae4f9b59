//! Textures: constant colors, a sine checker, a fractal-noise marble, and
//! bitmap sampling, each with an exact contract over the scalar operations.

use vstd::prelude::*;
use crate::fixed::{fits, sp_add, sp_sub, sp_mul, sp_div, fadd, fsub, fmul, fdiv, ONE};
use crate::vec::{Vec3, sp_vscale};
use crate::approx::{sp_sin, fsin};
use crate::util::{sp_rng_mix, Rng};

verus! {

/// Half of `ONE`, the scalar for 0.5.
pub const HALF: i128 = 32768;

/// A fixed color.
pub struct ConstantTexture {
    pub color: Vec3,
}

/// Two sub-textures keyed by the sign of a product of sines of the hit
/// point's coordinates.
pub struct CheckerTexture {
    pub odd: Box<Texture>,
    pub even: Box<Texture>,
}

/// Banded veining: a sinusoid of the z coordinate displaced by multi-octave
/// coherent noise, deterministic in the seed and the point.
pub struct MarbleTexture {
    pub scale: i128,
    pub seed: u64,
}

/// A decoded bitmap sampled by surface coordinates: three interleaved bytes
/// per pixel, rows of `width` pixels.
pub struct ImageTexture {
    pub data: Vec<u8>,
    pub width: u32,
    pub height: u32,
}

/// The closed set of texture variants.
pub enum Texture {
    Constant(ConstantTexture),
    Checker(CheckerTexture),
    Marble(MarbleTexture),
    Image(ImageTexture),
}

/// The lattice value at an integer grid point: a hash of the coordinates and
/// the seed, mapped into `[-ONE, ONE)`.
pub open spec fn sp_lattice(ix: int, iy: int, iz: int, seed: u64) -> int {
    let a = sp_rng_mix((seed ^ (ix as u64)) as u64);
    let b = sp_rng_mix((a ^ (iy as u64)) as u64);
    let c = sp_rng_mix((b ^ (iz as u64)) as u64);
    2 * ((c >> 48) as int) - ONE
}

/// The integer cell and fractional offset of a scalar coordinate.
pub open spec fn sp_cell(x: int) -> (int, int) {
    (x / (ONE as int), x % (ONE as int))
}

/// The smoothstep fade `t^2 (3 - 2 t)` of a fraction in `[0, ONE)`.
pub open spec fn sp_fade(t: int) -> int {
    sp_mul(sp_mul(t, t), sp_sub(3 * ONE, sp_add(t, t)))
}

/// Linear interpolation `a + t (b - a)`.
pub open spec fn sp_lerp(a: int, b: int, t: int) -> int {
    sp_add(a, sp_mul(t, sp_sub(b, a)))
}

/// One octave of value noise: the lattice values at the cell's eight
/// corners, blended trilinearly with faded fractions.
pub open spec fn sp_noise(p: Vec3, seed: u64) -> int {
    let cx = sp_cell(p._x as int);
    let cy = sp_cell(p._y as int);
    let cz = sp_cell(p._z as int);
    let u = sp_fade(cx.1);
    let v = sp_fade(cy.1);
    let w = sp_fade(cz.1);
    let c000 = sp_lattice(cx.0, cy.0, cz.0, seed);
    let c100 = sp_lattice(cx.0 + 1, cy.0, cz.0, seed);
    let c010 = sp_lattice(cx.0, cy.0 + 1, cz.0, seed);
    let c110 = sp_lattice(cx.0 + 1, cy.0 + 1, cz.0, seed);
    let c001 = sp_lattice(cx.0, cy.0, cz.0 + 1, seed);
    let c101 = sp_lattice(cx.0 + 1, cy.0, cz.0 + 1, seed);
    let c011 = sp_lattice(cx.0, cy.0 + 1, cz.0 + 1, seed);
    let c111 = sp_lattice(cx.0 + 1, cy.0 + 1, cz.0 + 1, seed);
    let x00 = sp_lerp(c000, c100, u);
    let x10 = sp_lerp(c010, c110, u);
    let x01 = sp_lerp(c001, c101, u);
    let x11 = sp_lerp(c011, c111, u);
    let y0 = sp_lerp(x00, x10, v);
    let y1 = sp_lerp(x01, x11, v);
    sp_lerp(y0, y1, w)
}

/// Five octaves of value noise, each at doubled frequency and halved
/// amplitude.
pub open spec fn sp_fbm(p: Vec3, seed: u64, octaves: nat) -> int
    decreases octaves,
{
    if octaves == 0 {
        0
    } else {
        sp_add(
            sp_noise(p, seed),
            sp_mul(HALF as int, sp_fbm(sp_vscale(p, 2 * ONE), seed, (octaves - 1) as nat)),
        )
    }
}

/// What a texture returns at surface coordinates `(u, v)` and point `p`.
pub open spec fn sp_texture_value(t: Texture, u: int, v: int, p: Vec3) -> Vec3
    decreases t,
{
    match t {
        Texture::Constant(c) => c.color,
        Texture::Checker(c) => {
            let sines = sp_mul(
                sp_mul(
                    sp_sin(sp_mul(10 * ONE, p._x as int)),
                    sp_sin(sp_mul(10 * ONE, p._y as int)),
                ),
                sp_sin(sp_mul(10 * ONE, p._z as int)),
            );
            if sines < 0 {
                sp_texture_value(*c.odd, u, v, p)
            } else {
                sp_texture_value(*c.even, u, v, p)
            }
        },
        Texture::Marble(m) => {
            let phase = sp_add(
                sp_mul(m.scale as int, p._z as int),
                sp_mul(10 * ONE, sp_fbm(p, m.seed, 5)),
            );
            let g = sp_mul(HALF as int, sp_add(ONE as int, sp_sin(phase)));
            Vec3 { _x: g as i128, _y: g as i128, _z: g as i128 }
        },
        Texture::Image(img) => sp_image_value(img, u, v),
    }
}

/// The pixel index along one axis: the product of the coordinate and the
/// pixel count, truncated, saturated at zero below and clamped to the last
/// pixel above.
pub open spec fn sp_pixel_index(coord: int, count: int) -> int {
    let raw = coord * count;
    let i = if raw < 0 {
        0
    } else {
        raw / (ONE as int)
    };
    if i > count - 1 {
        count - 1
    } else {
        i
    }
}

/// The sampled bitmap color: `v` is flipped vertically, indices clamp to the
/// valid range, and each byte is normalized to `[0, ONE]`.
pub open spec fn sp_image_value(img: ImageTexture, u: int, v: int) -> Vec3 {
    let i = 3 * sp_pixel_index(u, img.width as int);
    let j = 3 * sp_pixel_index(sp_sub(ONE as int, v), img.height as int);
    let base = i + (img.width as int) * j;
    Vec3 {
        _x: sp_div(img.data@[base] as int, 255) as i128,
        _y: sp_div(img.data@[base + 1] as int, 255) as i128,
        _z: sp_div(img.data@[base + 2] as int, 255) as i128,
    }
}

/// Well-formedness of a texture: colors and scales fit, and a bitmap's data
/// is exactly three bytes per pixel.
pub open spec fn sp_texture_wf(t: Texture) -> bool
    decreases t,
{
    match t {
        Texture::Constant(c) => c.color.wf(),
        Texture::Checker(c) => sp_texture_wf(*c.odd) && sp_texture_wf(*c.even),
        Texture::Marble(m) => fits(m.scale as int),
        Texture::Image(img) => img.width >= 1 && img.height >= 1 && img.data@.len() == 3 * (
        img.width as int) * (img.height as int),
    }
}

impl ConstantTexture {
    pub fn new(color: Vec3) -> (t: ConstantTexture)
        requires
            color.wf(),
        ensures
            t.color == color,
    {
        ConstantTexture { color }
    }
}

impl CheckerTexture {
    pub fn new(odd: Box<Texture>, even: Box<Texture>) -> (t: CheckerTexture)
        requires
            sp_texture_wf(*odd),
            sp_texture_wf(*even),
        ensures
            t.odd == odd,
            t.even == even,
            sp_texture_wf(Texture::Checker(t)),
    {
        CheckerTexture { odd, even }
    }
}

impl MarbleTexture {
    pub fn new(scale: i128, seed: u64) -> (t: MarbleTexture)
        requires
            fits(scale as int),
        ensures
            t.scale == scale,
            t.seed == seed,
            sp_texture_wf(Texture::Marble(t)),
    {
        MarbleTexture { scale, seed }
    }
}

impl ImageTexture {
    pub fn new(data: Vec<u8>, width: u32, height: u32) -> (t: ImageTexture)
        requires
            width >= 1,
            height >= 1,
            data@.len() == 3 * (width as int) * (height as int),
        ensures
            t.data == data,
            t.width == width,
            t.height == height,
            sp_texture_wf(Texture::Image(t)),
    {
        ImageTexture { data, width, height }
    }
}

/// The lattice value at an integer grid point, in `[-ONE, ONE)`.
fn lattice(ix: i128, iy: i128, iz: i128, seed: u64) -> (r: i128)
    ensures
        r == sp_lattice(ix as int, iy as int, iz as int, seed),
        -ONE <= r < ONE,
        fits(r as int),
{
    let a = mix64(seed ^ (#[verifier::truncate] (ix as u64)));
    let b = mix64(a ^ (#[verifier::truncate] (iy as u64)));
    let c = mix64(b ^ (#[verifier::truncate] (iz as u64)));
    let top = c >> 48;
    proof {
        assert(c >> 48 < 65536u64) by (bit_vector);
    }
    2 * (top as i128) - ONE
}

/// The splitmix mixing function, shared with the generator.
fn mix64(s: u64) -> (r: u64)
    ensures
        r == sp_rng_mix(s),
{
    let z0 = s ^ (s >> 30);
    let z1 = z0.wrapping_mul(0xBF58476D1CE4E5B9u64);
    let z2 = z1 ^ (z1 >> 27);
    let z3 = z2.wrapping_mul(0x94D049BB133111EBu64);
    z3 ^ (z3 >> 31)
}

/// Integer cell and nonnegative fractional offset of a coordinate.
fn cell(x: i128) -> (r: (i128, i128))
    requires
        fits(x as int),
    ensures
        r.0 == sp_cell(x as int).0,
        r.1 == sp_cell(x as int).1,
        0 <= r.1 < ONE,
        fits(r.0 as int),
{
    if x >= 0 {
        let q = x / 65536;
        let f = x % 65536;
        proof {
            vstd::arithmetic::div_mod::lemma_mod_bound(x as int, ONE as int);
        }
        (q, f)
    } else {
        let mx = (-x) as u128;
        let qm = (mx / 65536) as i128;
        let rm = (mx % 65536) as i128;
        let (q, f): (i128, i128) = if rm == 0 {
            (-qm, 0)
        } else {
            (-qm - 1, 65536 - rm)
        };
        proof {
            let xi = x as int;
            let t = ONE as int;
            vstd::arithmetic::div_mod::lemma_mod_bound(-xi, t);
            vstd::arithmetic::div_mod::lemma_fundamental_div_mod(-xi, t);
            let q2 = (-xi) / t;
            let r2 = (-xi) % t;
            assert(t * q2 == q2 * t) by (nonlinear_arith);
            assert((-q2) * t == -(q2 * t)) by (nonlinear_arith);
            assert((-q2 - 1) * t == -(q2 * t) - t) by (nonlinear_arith);
            if r2 == 0 {
                vstd::arithmetic::div_mod::lemma_fundamental_div_mod_converse(xi, t, -q2, 0);
            } else {
                vstd::arithmetic::div_mod::lemma_fundamental_div_mod_converse(
                    xi,
                    t,
                    -q2 - 1,
                    t - r2,
                );
            }
        }
        (q, f)
    }
}

/// The smoothstep fade of a fraction.
fn fade(t: i128) -> (r: i128)
    requires
        0 <= t < ONE,
    ensures
        r == sp_fade(t as int),
        fits(r as int),
{
    fmul(fmul(t, t), fsub(3 * ONE, fadd(t, t)))
}

/// Linear interpolation.
fn lerp(a: i128, b: i128, t: i128) -> (r: i128)
    requires
        fits(a as int),
        fits(b as int),
        fits(t as int),
    ensures
        r == sp_lerp(a as int, b as int, t as int),
        fits(r as int),
{
    fadd(a, fmul(t, fsub(b, a)))
}

/// One octave of value noise at a point.
pub fn noise(p: Vec3, seed: u64) -> (r: i128)
    requires
        p.wf(),
    ensures
        r == sp_noise(p, seed),
        fits(r as int),
{
    let cx = cell(p._x);
    let cy = cell(p._y);
    let cz = cell(p._z);
    let u = fade(cx.1);
    let v = fade(cy.1);
    let w = fade(cz.1);
    let c000 = lattice(cx.0, cy.0, cz.0, seed);
    let c100 = lattice(cx.0 + 1, cy.0, cz.0, seed);
    let c010 = lattice(cx.0, cy.0 + 1, cz.0, seed);
    let c110 = lattice(cx.0 + 1, cy.0 + 1, cz.0, seed);
    let c001 = lattice(cx.0, cy.0, cz.0 + 1, seed);
    let c101 = lattice(cx.0 + 1, cy.0, cz.0 + 1, seed);
    let c011 = lattice(cx.0, cy.0 + 1, cz.0 + 1, seed);
    let c111 = lattice(cx.0 + 1, cy.0 + 1, cz.0 + 1, seed);
    let x00 = lerp(c000, c100, u);
    let x10 = lerp(c010, c110, u);
    let x01 = lerp(c001, c101, u);
    let x11 = lerp(c011, c111, u);
    let y0 = lerp(x00, x10, v);
    let y1 = lerp(x01, x11, v);
    lerp(y0, y1, w)
}

/// Multi-octave value noise.
pub fn fbm(p: Vec3, seed: u64, octaves: u32) -> (r: i128)
    requires
        p.wf(),
    ensures
        r == sp_fbm(p, seed, octaves as nat),
        fits(r as int),
    decreases octaves,
{
    if octaves == 0 {
        0
    } else {
        fadd(noise(p, seed), fmul(HALF, fbm(p.scale(2 * ONE), seed, octaves - 1)))
    }
}

impl Texture {
    pub open spec fn wf(self) -> bool {
        sp_texture_wf(self)
    }

    /// The color this texture takes at surface coordinates `(u, v)` and
    /// point `p`.
    pub fn value(&self, u: i128, v: i128, p: Vec3) -> (r: Vec3)
        requires
            self.wf(),
            fits(u as int),
            fits(v as int),
            p.wf(),
        ensures
            r == sp_texture_value(*self, u as int, v as int, p),
            r.wf(),
        decreases *self,
    {
        match self {
            Texture::Constant(c) => c.color,
            Texture::Checker(c) => {
                let sines = fmul(
                    fmul(fsin(fmul(10 * ONE, p._x)), fsin(fmul(10 * ONE, p._y))),
                    fsin(fmul(10 * ONE, p._z)),
                );
                if sines < 0 {
                    c.odd.value(u, v, p)
                } else {
                    c.even.value(u, v, p)
                }
            },
            Texture::Marble(m) => {
                let phase = fadd(fmul(m.scale, p._z), fmul(10 * ONE, fbm(p, m.seed, 5)));
                let g = fmul(HALF, fadd(ONE, fsin(phase)));
                Vec3 { _x: g, _y: g, _z: g }
            },
            Texture::Image(img) => img.value(u, v),
        }
    }
}

impl ImageTexture {
    /// Samples the bitmap, clamping indices defensively into range.
    pub fn value(&self, u: i128, v: i128) -> (r: Vec3)
        requires
            sp_texture_wf(Texture::Image(*self)),
            fits(u as int),
            fits(v as int),
        ensures
            r == sp_image_value(*self, u as int, v as int),
            r.wf(),
    {
        let i = 3 * pixel_index(u, self.width);
        let j = 3 * pixel_index(fsub(ONE, v), self.height);
        let w = self.width as i128;
        let ghost iw = self.width as int;
        let ghost ih = self.height as int;
        let ghost ii = crate::texture::sp_pixel_index(u as int, iw);
        let ghost jj = crate::texture::sp_pixel_index(sp_sub(ONE as int, v as int), ih);
        proof {
            assert(i == 3 * ii && j == 3 * jj);
            assert(0 <= (w as int) * (j as int) && i + (w as int) * (j as int) + 2 < 3 * iw * ih
                && 3 * iw * ih <= 0xC00_0000_0000_0000_0000)
                by (nonlinear_arith)
                requires
                    w as int == iw,
                    i == 3 * ii,
                    j == 3 * jj,
                    0 <= ii <= iw - 1,
                    0 <= jj <= ih - 1,
                    1 <= iw <= 0x1_0000_0000,
                    1 <= ih <= 0x1_0000_0000;
        }
        let len = self.data.len();
        let base = (i + w * j) as usize;
        proof {
            assert(base + 2 < len);
        }
        let r = fdiv_byte(self.data[base]);
        let g = fdiv_byte(self.data[base + 1]);
        let b = fdiv_byte(self.data[base + 2]);
        Vec3 { _x: r, _y: g, _z: b }
    }
}

/// A byte channel normalized to `[0, ONE]`.
fn fdiv_byte(b: u8) -> (r: i128)
    ensures
        r == sp_div(b as int, 255),
        0 <= r <= ONE,
        fits(r as int),
{
    proof {
        vstd::arithmetic::div_mod::lemma_div_is_ordered(0, (b as int) * 65536, 255);
        vstd::arithmetic::div_mod::lemma_div_is_ordered((b as int) * 65536, (255 * 65536) as int, 255);
    }
    fdiv(b as i128, 255)
}

/// The pixel index along one axis.
fn pixel_index(coord: i128, count: u32) -> (r: i128)
    requires
        fits(coord as int),
        count >= 1,
    ensures
        r == sp_pixel_index(coord as int, count as int),
        0 <= r <= count - 1,
{
    proof {
        assert(coord * (count as i128) < 0x1000_0000_0000_0000_0000_0000_0000i128
            && -0x1000_0000_0000_0000_0000_0000_0000i128 < coord * (count as i128))
            by (nonlinear_arith)
            requires
                -0x4000_0000_0000_0000 <= coord <= 0x4000_0000_0000_0000,
                0 <= (count as i128) <= 0x1_0000_0000;
    }
    let raw = coord * (count as i128);
    let i: i128 = if raw < 0 {
        0
    } else {
        let q = raw / 65536;
        proof {
            vstd::arithmetic::div_mod::lemma_mod_bound(raw as int, ONE as int);
        }
        q
    };
    if i > (count as i128) - 1 {
        (count as i128) - 1
    } else {
        i
    }
}

} // verus!
