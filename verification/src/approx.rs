//! Rational and iterative approximations of the transcendental functions, at
//! scalar precision.  Each function computes a fixed formula over the scalar
//! operations; its contract states that formula exactly.

use vstd::prelude::*;
use crate::fixed::{
    fits, mag, sp_add, sp_sub, sp_mul, sp_div, fadd, fsub, fmul, fdiv, fabs, fneg, fsqrt, sp_sqrt,
    ONE, SCALE, SAT,
};
use crate::util::{PI, HALF_PI, TWO_PI};

verus! {

/// The natural logarithm of two, in scalar units.
pub const LN2: i128 = 45426;

/// A quarter of the circle constant, in scalar units.
pub const QUARTER_PI: i128 = 51472;

/// The tuning constant of the arctangent approximation (about 0.273).
pub const ATAN_K: i128 = 17891;

/// The angle folded into `[0, TWO_PI)`.
pub open spec fn sp_reduce_angle(x: int) -> int {
    x % (TWO_PI as int)
}

/// The sine of an angle already in `[0, PI]`: the classical rational
/// approximation `16 a (PI - a) / (5 PI^2 - 4 a (PI - a))`.
pub open spec fn sp_sin_core(a: int) -> int {
    let w = sp_mul(a, sp_sub(PI as int, a));
    sp_div(sp_mul(16 * ONE, w), sp_sub(sp_mul(5 * ONE, sp_mul(PI as int, PI as int)), sp_mul(4 * ONE, w)))
}

/// The sine: the angle is folded into `[0, TWO_PI)` and the half-circle
/// approximation is applied with the appropriate sign.
pub open spec fn sp_sin(x: int) -> int {
    let m = sp_reduce_angle(x);
    if m < PI {
        sp_sin_core(m)
    } else {
        -sp_sin_core(m - PI)
    }
}

/// The cosine, as the sine a quarter turn ahead.
pub open spec fn sp_cos(x: int) -> int {
    sp_sin(sp_add(x, HALF_PI as int))
}

/// The tangent, as the quotient of sine and cosine.
pub open spec fn sp_tan(x: int) -> int {
    sp_div(sp_sin(x), sp_cos(x))
}

/// The arctangent of a ratio in `[0, ONE]`:
/// `t * (PI/4 + ATAN_K * (ONE - t))`.
pub open spec fn sp_atan_core(t: int) -> int {
    sp_mul(t, sp_add(QUARTER_PI as int, sp_mul(ATAN_K as int, sp_sub(ONE as int, t))))
}

/// The magnitude of the arctangent of `|z| / |x|` (for `x != 0`).
pub open spec fn sp_atan_mag(z: int, x: int) -> int {
    let t = sp_div(mag(z), mag(x));
    if t <= ONE {
        sp_atan_core(t)
    } else {
        sp_sub(HALF_PI as int, sp_atan_core(sp_div(mag(x), mag(z))))
    }
}

/// The two-argument arctangent: the angle of the point `(x, z)` in
/// `(-PI, PI]`, with `sp_atan2(0, 0) == 0`.
pub open spec fn sp_atan2(z: int, x: int) -> int {
    if x == 0 {
        if z > 0 {
            HALF_PI as int
        } else if z < 0 {
            -(HALF_PI as int)
        } else {
            0
        }
    } else {
        let base = sp_atan_mag(z, x);
        let m = if x > 0 {
            base
        } else {
            sp_sub(PI as int, base)
        };
        if z >= 0 {
            m
        } else {
            -m
        }
    }
}

/// The arcsine of a value clamped into `[-ONE, ONE]`, through the
/// arctangent of `y / sqrt(1 - y^2)`.
pub open spec fn sp_asin(y: int) -> int {
    let c = if y > ONE {
        ONE as int
    } else if y < -ONE {
        -(ONE as int)
    } else {
        y
    };
    sp_atan2(c, sp_sqrt(sp_sub(ONE as int, sp_mul(c, c))))
}

/// Sine at scalar precision.
pub fn fsin(x: i128) -> (r: i128)
    requires
        fits(x as int),
    ensures
        r == sp_sin(x as int),
        fits(r as int),
{
    let m = reduce_angle(x);
    if m < PI {
        sin_core(m)
    } else {
        fneg(sin_core(m - PI))
    }
}

/// Cosine at scalar precision.
pub fn fcos(x: i128) -> (r: i128)
    requires
        fits(x as int),
    ensures
        r == sp_cos(x as int),
        fits(r as int),
{
    fsin(fadd(x, HALF_PI))
}

/// Tangent at scalar precision.
pub fn ftan(x: i128) -> (r: i128)
    requires
        fits(x as int),
    ensures
        r == sp_tan(x as int),
        fits(r as int),
{
    fdiv(fsin(x), fcos(x))
}

/// Two-argument arctangent at scalar precision.
pub fn fatan2(z: i128, x: i128) -> (r: i128)
    requires
        fits(z as int),
        fits(x as int),
    ensures
        r == sp_atan2(z as int, x as int),
        fits(r as int),
{
    if x == 0 {
        if z > 0 {
            HALF_PI
        } else if z < 0 {
            -HALF_PI
        } else {
            0
        }
    } else {
        let t = fdiv(fabs(z), fabs(x));
        let base = if t <= ONE {
            atan_core(t)
        } else {
            fsub(HALF_PI, atan_core(fdiv(fabs(x), fabs(z))))
        };
        let m = if x > 0 {
            base
        } else {
            fsub(PI, base)
        };
        if z >= 0 {
            m
        } else {
            fneg(m)
        }
    }
}

/// Arcsine at scalar precision; the argument is clamped into `[-ONE, ONE]`.
pub fn fasin(y: i128) -> (r: i128)
    requires
        fits(y as int),
    ensures
        r == sp_asin(y as int),
        fits(r as int),
{
    let c = if y > ONE {
        ONE
    } else if y < -ONE {
        -ONE
    } else {
        y
    };
    proof {
        crate::fixed::lemma_sp_mul_sq_range(c as int, 0, ONE as int);
    }
    fatan2(c, fsqrt(fsub(ONE, fmul(c, c))))
}

fn atan_core(t: i128) -> (r: i128)
    requires
        0 <= t,
        fits(t as int),
    ensures
        r == sp_atan_core(t as int),
        fits(r as int),
{
    fmul(t, fadd(QUARTER_PI, fmul(ATAN_K, fsub(ONE, t))))
}

fn sin_core(a: i128) -> (r: i128)
    requires
        0 <= a <= PI,
    ensures
        r == sp_sin_core(a as int),
        fits(r as int),
{
    let w = fmul(a, fsub(PI, a));
    fdiv(fmul(16 * ONE, w), fsub(fmul(5 * ONE, fmul(PI, PI)), fmul(4 * ONE, w)))
}

fn reduce_angle(x: i128) -> (m: i128)
    requires
        fits(x as int),
    ensures
        m == sp_reduce_angle(x as int),
        0 <= m < TWO_PI,
{
    let tp: u128 = TWO_PI as u128;
    if x >= 0 {
        let r = (x as u128) % tp;
        proof {
            vstd::arithmetic::div_mod::lemma_mod_bound(x as int, TWO_PI as int);
        }
        r as i128
    } else {
        let mx = (-x) as u128;
        let r = mx % tp;
        let m: i128 = if r == 0 {
            0
        } else {
            TWO_PI - (r as i128)
        };
        proof {
            let xi = x as int;
            let t = TWO_PI as int;
            vstd::arithmetic::div_mod::lemma_mod_bound(-xi, t);
            vstd::arithmetic::div_mod::lemma_fundamental_div_mod(-xi, t);
            let q2 = (-xi) / t;
            let r2 = (-xi) % t;
            assert(t * q2 == q2 * t) by (nonlinear_arith);
            assert((-q2) * t == -(q2 * t)) by (nonlinear_arith);
            assert((-q2 - 1) * t == -(q2 * t) - t) by (nonlinear_arith);
            if r2 == 0 {
                vstd::arithmetic::div_mod::lemma_fundamental_div_mod_converse(xi, t, -q2, 0);
            } else {
                vstd::arithmetic::div_mod::lemma_fundamental_div_mod_converse(
                    xi,
                    t,
                    -q2 - 1,
                    t - r2,
                );
            }
        }
        m
    }
}

/// Normalization for the base-two logarithm of a scalar in `(0, ONE]`:
/// the exponent reached by doubling the mantissa up into `[ONE, 2 ONE)`,
/// paired with that mantissa.
pub open spec fn sp_log2_norm(m: int) -> (int, int)
    decreases 2 * ONE as int - m,
{
    if m <= 0 {
        (0, m)  // outside the domain; keeps the definition total
    } else if m < ONE {
        let kn = sp_log2_norm(2 * m);
        (kn.0 - 1, kn.1)
    } else {
        (0, m)
    }
}

/// The fractional bits of the base-two logarithm of a mantissa in
/// `[ONE, 2 ONE)`, produced by repeated squaring; `i` bits remain, and the
/// leading bit weighs `pow2(i - 1)`.
pub open spec fn sp_log2_frac(m: int, i: nat) -> int
    decreases i,
{
    if i == 0 {
        0
    } else {
        let sq = sp_mul(m, m);
        if sq >= 2 * ONE {
            vstd::arithmetic::power2::pow2((i - 1) as nat) as int + sp_log2_frac(sq / 2, (i - 1) as nat)
        } else {
            sp_log2_frac(sq, (i - 1) as nat)
        }
    }
}

/// The base-two logarithm of a scalar in `(0, ONE]`, in scalar units.
pub open spec fn sp_log2(x: int) -> int {
    let kn = sp_log2_norm(x);
    kn.0 * ONE + sp_log2_frac(kn.1, 16)
}

/// The natural logarithm of a scalar in `(0, ONE]`, through `sp_log2`.
pub open spec fn sp_ln(x: int) -> int {
    sp_mul(sp_log2(x), LN2 as int)
}

/// Base-two logarithm of a scalar in `(0, ONE]` (so the result is in
/// `[-16 * ONE, 0]`).
pub fn flog2(x: i128) -> (r: i128)
    requires
        0 < x <= ONE,
    ensures
        r == sp_log2(x as int),
        -16 * ONE <= r <= 0,
{
    let mut k: i128 = 0;
    let mut m: i128 = x;
    proof {
        vstd::arithmetic::power2::lemma2_to64();
    }
    while m < ONE
        invariant
            0 < m < 2 * ONE,
            -16 <= k <= 0,
            vstd::arithmetic::power2::pow2((-k) as nat) <= m,
            k == 0 ==> m == x,
            sp_log2_norm(x as int).0 == sp_log2_norm(m as int).0 + k,
            sp_log2_norm(x as int).1 == sp_log2_norm(m as int).1,
        decreases 2 * ONE as int - m,
    {
        proof {
            vstd::arithmetic::power2::lemma2_to64();
            if -k > 16 {
                vstd::arithmetic::power2::lemma_pow2_strictly_increases(16, (-k) as nat);
            }
            assert(-k < 16);
            vstd::arithmetic::power2::lemma_pow2_unfold(((-k) + 1) as nat);
            assert(sp_log2_norm(m as int).0 == sp_log2_norm(2 * (m as int)).0 - 1);
            assert(sp_log2_norm(m as int).1 == sp_log2_norm(2 * (m as int)).1);
        }
        m = m * 2;
        k = k - 1;
    }
    proof {
        assert(sp_log2_norm(m as int) == (0int, m as int));
        assert(sp_log2(x as int) == k * ONE + sp_log2_frac(m as int, 16));
    }
    let mut frac: i128 = 0;
    let mut i: u32 = 16;
    proof {
        vstd::arithmetic::power2::lemma2_to64();
    }
    while i > 0
        invariant
            ONE <= m < 2 * ONE,
            i <= 16,
            -16 <= k <= 0,
            0 <= frac,
            frac + vstd::arithmetic::power2::pow2(i as nat) <= vstd::arithmetic::power2::pow2(16),
            k == 0 ==> m == ONE && frac == 0,
            sp_log2(x as int) == k * ONE + frac + sp_log2_frac(m as int, i as nat),
        decreases i,
    {
        proof {
            vstd::arithmetic::power2::lemma2_to64();
            vstd::arithmetic::power2::lemma_pow2_unfold(i as nat);
            vstd::arithmetic::power2::lemma_pow2_pos((i - 1) as nat);
            crate::fixed::lemma_sp_mul_sq_range(m as int, ONE as int, 2 * ONE - 1);
        }
        let sq = fmul(m, m);
        i = i - 1;
        if sq >= 2 * ONE {
            m = sq / 2;
            let bit = pow2_exec(i);
            frac = frac + bit;
        } else {
            m = sq;
        }
    }
    proof {
        vstd::arithmetic::power2::lemma2_to64();
    }
    k * ONE + frac
}

/// `pow2` at run time, for small exponents.
fn pow2_exec(i: u32) -> (r: i128)
    requires
        i < 32,
    ensures
        r == vstd::arithmetic::power2::pow2(i as nat),
        1 <= r <= 0x1_0000_0000,
{
    let mut r: i128 = 1;
    let mut j: u32 = 0;
    proof {
        vstd::arithmetic::power2::lemma2_to64();
    }
    while j < i
        invariant
            j <= i < 32,
            1 <= r,
            r == vstd::arithmetic::power2::pow2(j as nat),
            r <= 0x1_0000_0000,
        decreases i - j,
    {
        proof {
            vstd::arithmetic::power2::lemma_pow2_unfold((j + 1) as nat);
            vstd::arithmetic::power2::lemma_pow2_strictly_increases((j + 1) as nat, 32);
            vstd::arithmetic::power2::lemma2_to64();
        }
        r = r * 2;
        j = j + 1;
    }
    r
}

/// Natural logarithm of a scalar in `(0, ONE]` (so the result is in
/// `[-16 * LN2, 0]` scalar units).
pub fn fln(x: i128) -> (r: i128)
    requires
        0 < x <= ONE,
    ensures
        r == sp_ln(x as int),
        fits(r as int),
        r <= 0,
{
    let l = flog2(x);
    let r = fmul(l, LN2);
    proof {
        assert(sp_mul(l as int, LN2 as int) <= 0) by (nonlinear_arith)
            requires -16 * ONE <= l as int <= 0;
    }
    r
}

} // verus!
