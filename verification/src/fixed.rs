//! The fixed-point scalar type underlying all geometry and radiometry.
//!
//! A real value `x` is represented by the `i128` integer `x * SCALE`, rounded
//! toward zero.  Arithmetic saturates at `SAT`: a saturated value behaves as
//! an effectively infinite quantity, much as overflow to an infinity does for
//! floating point, and keeps every operation total and free of overflow.

use vstd::prelude::*;

verus! {

/// Number of integer steps per unit: a real value `x` is stored as `x * SCALE`.
pub const SCALE: i128 = 65536;

/// The scalar representing 1.0.
pub const ONE: i128 = 65536;

/// Largest magnitude a scalar takes; arithmetic clamps results here.
/// `SAT` is 2^62, far beyond any meaningful scene coordinate, so a saturated
/// value acts as "infinitely far" in comparisons.
pub const SAT: i128 = 0x4000_0000_0000_0000;

/// A scalar is well formed when its magnitude is at most `SAT`.
pub open spec fn fits(x: int) -> bool {
    -(SAT as int) <= x <= SAT as int
}

/// Clamp a mathematical integer into the representable range.
pub open spec fn sat(x: int) -> int {
    if x > SAT as int {
        SAT as int
    } else if x < -(SAT as int) {
        -(SAT as int)
    } else {
        x
    }
}

/// Magnitude of a mathematical integer.
pub open spec fn mag(x: int) -> int {
    if x < 0 {
        -x
    } else {
        x
    }
}

/// Division rounding toward zero (the rounding used by all scalar ops).
pub open spec fn tdiv(a: int, b: int) -> int {
    if (a >= 0) == (b >= 0) {
        mag(a) / mag(b)
    } else {
        -(mag(a) / mag(b))
    }
}

/// The smaller of two mathematical integers.
pub open spec fn smin(a: int, b: int) -> int {
    if a <= b {
        a
    } else {
        b
    }
}

/// The larger of two mathematical integers.
pub open spec fn smax(a: int, b: int) -> int {
    if a >= b {
        a
    } else {
        b
    }
}

/// What `fadd` returns.
pub open spec fn sp_add(a: int, b: int) -> int {
    sat(a + b)
}

/// What `fsub` returns.
pub open spec fn sp_sub(a: int, b: int) -> int {
    sat(a - b)
}

/// What `fmul` returns: the product of two scalars, rescaled.
pub open spec fn sp_mul(a: int, b: int) -> int {
    sat(tdiv(a * b, SCALE as int))
}

/// What `fdiv` returns: the quotient of two scalars, rescaled.  Division by
/// zero saturates with the sign of the numerator, standing in for the
/// infinities floating point would produce.
pub open spec fn sp_div(a: int, b: int) -> int {
    if b == 0 {
        if a >= 0 {
            SAT as int
        } else {
            -(SAT as int)
        }
    } else {
        sat(tdiv(a * SCALE, b))
    }
}

/// `r` is the integer square root of `n`.
pub open spec fn is_isqrt(n: int, r: int) -> bool {
    0 <= r && r * r <= n && n < (r + 1) * (r + 1)
}

/// The integer square root of `n`, as a spec-level function.
pub open spec fn isqrt_of(n: int) -> int {
    choose|r: int| is_isqrt(n, r)
}

/// What `fsqrt` returns: the square root of a scalar, in scalar units.
pub open spec fn sp_sqrt(a: int) -> int {
    isqrt_of(a * SCALE)
}

/// Clamping is the identity on values already in range.
pub proof fn lemma_sat_id(x: int)
    requires
        fits(x),
    ensures
        sat(x) == x,
{
}

/// Signs and magnitudes of a product.
proof fn lemma_mul_sign_mag(a: int, b: int)
    by (nonlinear_arith)
    ensures
        mag(a * b) == mag(a) * mag(b),
        ((a < 0) != (b < 0)) ==> a * b <= 0,
        ((a < 0) == (b < 0)) ==> a * b >= 0,
{
}

/// Products of bounded factors are bounded.
proof fn lemma_mul_bound(a: int, b: int, ca: int, cb: int)
    by (nonlinear_arith)
    requires
        0 <= a <= ca,
        0 <= b <= cb,
    ensures
        0 <= a * b <= ca * cb,
{
}

/// A product of scalars with bounded magnitudes has bounded magnitude.
pub proof fn lemma_sp_mul_bound(a: int, b: int, ca: int, cb: int)
    requires
        mag(a) <= ca,
        mag(b) <= cb,
    ensures
        mag(sp_mul(a, b)) <= (ca * cb) / (SCALE as int),
{
    lemma_mul_sign_mag(a, b);
    assert(mag(a) * mag(b) <= ca * cb) by (nonlinear_arith)
        requires
            0 <= mag(a) <= ca,
            0 <= mag(b) <= cb;
    vstd::arithmetic::div_mod::lemma_div_is_ordered(mag(a) * mag(b), ca * cb, SCALE as int);
    vstd::arithmetic::div_mod::lemma_div_is_ordered(0, mag(a) * mag(b), SCALE as int);
}

/// The square of a scalar between two nonnegative bounds lands between the
/// squares of the bounds, rescaled.
pub proof fn lemma_sp_mul_sq_range(a: int, lo: int, hi: int)
    requires
        0 <= lo <= mag(a) <= hi,
        hi * hi <= SAT * (SCALE as int),
    ensures
        (lo * lo) / (SCALE as int) <= sp_mul(a, a) <= (hi * hi) / (SCALE as int),
        sp_mul(a, a) >= 0,
{
    vstd::arithmetic::div_mod::lemma_div_is_ordered(hi * hi, SAT * (SCALE as int), SCALE as int);
    assert(SAT * (SCALE as int) / (SCALE as int) == SAT) by (nonlinear_arith);
    lemma_mul_sign_mag(a, a);
    assert(lo * lo <= mag(a) * mag(a) <= hi * hi) by (nonlinear_arith)
        requires
            0 <= lo <= mag(a) <= hi;
    vstd::arithmetic::div_mod::lemma_div_is_ordered(lo * lo, mag(a) * mag(a), SCALE as int);
    vstd::arithmetic::div_mod::lemma_div_is_ordered(mag(a) * mag(a), hi * hi, SCALE as int);
    vstd::arithmetic::div_mod::lemma_div_is_ordered(0, lo * lo, SCALE as int);
}

/// A product of nonnegative scalars is nonnegative.
pub proof fn lemma_sp_mul_nonneg(a: int, b: int)
    requires
        a >= 0,
        b >= 0,
    ensures
        sp_mul(a, b) >= 0,
{
    lemma_mul_sign_mag(a, b);
    vstd::arithmetic::div_mod::lemma_div_is_ordered(0, mag(a * b), SCALE as int);
}

/// Multiplying by the unit scalar is the identity.
pub proof fn lemma_sp_mul_one(x: int)
    requires
        fits(x),
    ensures
        sp_mul(x, ONE as int) == x,
{
    lemma_mul_sign_mag(x, ONE as int);
    vstd::arithmetic::div_mod::lemma_div_multiples_vanish(mag(x), ONE as int);
    assert(mag(x) * (ONE as int) == (ONE as int) * mag(x)) by (nonlinear_arith);
}

/// Negating one factor negates the product.
pub proof fn lemma_sp_mul_neg(a: int, b: int)
    ensures
        sp_mul(a, -b) == -sp_mul(a, b),
{
    lemma_mul_sign_mag(a, b);
    lemma_mul_sign_mag(a, -b);
    assert(a * (-b) == -(a * b)) by (nonlinear_arith);
}

/// Dividing a positive scalar by itself gives the unit scalar.
pub proof fn lemma_sp_div_self(x: int)
    requires
        0 < x,
        fits(x),
    ensures
        sp_div(x, x) == ONE as int,
{
    lemma_mul_sign_mag(x, SCALE as int);
    vstd::arithmetic::div_mod::lemma_div_multiples_vanish(SCALE as int, x);
    assert(mag(x * SCALE) == x * SCALE);
    assert(x * SCALE == SCALE * x) by (nonlinear_arith);
}

/// An integer square root is unique.
pub proof fn lemma_isqrt_unique(n: int, r1: int, r2: int)
    by (nonlinear_arith)
    requires
        is_isqrt(n, r1),
        is_isqrt(n, r2),
    ensures
        r1 == r2,
{
}

/// Saturating addition.
pub fn fadd(a: i128, b: i128) -> (r: i128)
    requires
        fits(a as int),
        fits(b as int),
    ensures
        r == sp_add(a as int, b as int),
        fits(r as int),
{
    let s = a + b;
    if s > SAT {
        SAT
    } else if s < -SAT {
        -SAT
    } else {
        s
    }
}

/// Saturating subtraction.
pub fn fsub(a: i128, b: i128) -> (r: i128)
    requires
        fits(a as int),
        fits(b as int),
    ensures
        r == sp_sub(a as int, b as int),
        fits(r as int),
{
    let s = a - b;
    if s > SAT {
        SAT
    } else if s < -SAT {
        -SAT
    } else {
        s
    }
}

/// Negation.
pub fn fneg(a: i128) -> (r: i128)
    requires
        fits(a as int),
    ensures
        r == -a,
        fits(r as int),
{
    -a
}

/// Magnitude.
pub fn fabs(a: i128) -> (r: i128)
    requires
        fits(a as int),
    ensures
        r == mag(a as int),
        fits(r as int),
{
    if a < 0 {
        -a
    } else {
        a
    }
}

/// The smaller of two scalars.
pub fn fmin(a: i128, b: i128) -> (r: i128)
    ensures
        r == if a <= b { a as int } else { b as int },
{
    if a <= b {
        a
    } else {
        b
    }
}

/// The larger of two scalars.
pub fn fmax(a: i128, b: i128) -> (r: i128)
    ensures
        r == if a >= b { a as int } else { b as int },
{
    if a >= b {
        a
    } else {
        b
    }
}

/// Saturating product of two scalars.
pub fn fmul(a: i128, b: i128) -> (r: i128)
    requires
        fits(a as int),
        fits(b as int),
    ensures
        r == sp_mul(a as int, b as int),
        fits(r as int),
{
    let neg = (a < 0) != (b < 0);
    let ma: u128 = if a < 0 {
        (-a) as u128
    } else {
        a as u128
    };
    let mb: u128 = if b < 0 {
        (-b) as u128
    } else {
        b as u128
    };
    proof {
        lemma_mul_bound(ma as int, mb as int, SAT as int, SAT as int);
        lemma_mul_sign_mag(a as int, b as int);
    }
    let m = ma * mb;
    let q = m / 65536;
    let qi: i128 = if q > 0x4000_0000_0000_0000u128 {
        SAT
    } else {
        q as i128
    };
    if neg {
        -qi
    } else {
        qi
    }
}

/// Saturating quotient of two scalars; division by zero saturates with the
/// sign of the numerator.
pub fn fdiv(a: i128, b: i128) -> (r: i128)
    requires
        fits(a as int),
        fits(b as int),
    ensures
        r == sp_div(a as int, b as int),
        fits(r as int),
{
    if b == 0 {
        if a >= 0 {
            SAT
        } else {
            -SAT
        }
    } else {
        let neg = (a < 0) != (b < 0);
        let ma: u128 = if a < 0 {
            (-a) as u128
        } else {
            a as u128
        };
        let mb: u128 = if b < 0 {
            (-b) as u128
        } else {
            b as u128
        };
        proof {
            lemma_mul_sign_mag(a as int, SCALE as int);
        }
        let n = ma * 65536;
        let q = n / mb;
        let qi: i128 = if q > 0x4000_0000_0000_0000u128 {
            SAT
        } else {
            q as i128
        };
        if neg {
            -qi
        } else {
            qi
        }
    }
}

/// Square root of a nonnegative scalar, rounded down to scalar precision.
pub fn fsqrt(a: i128) -> (r: i128)
    requires
        0 <= a,
        fits(a as int),
    ensures
        is_isqrt(a * SCALE, r as int),
        r == sp_sqrt(a as int),
        0 <= r,
        fits(r as int),
{
    let n: u128 = (a as u128) * 65536;
    let mut lo: u128 = 0;
    let mut hi: u128 = 1099511627776;  // 2^40, whose square exceeds SAT * SCALE
    proof {
        lemma_mul_bound(1099511627776, 1099511627776, 1099511627776, 1099511627776);
        lemma_mul_bound(a as int, SCALE as int, SAT as int, SCALE as int);
    }
    while lo + 1 < hi
        invariant
            lo < hi <= 1099511627776,
            lo * lo <= n,
            n < hi * hi,
            n == a * SCALE,
        decreases hi - lo,
    {
        let mid = lo + (hi - lo) / 2;
        proof {
            lemma_mul_bound(mid as int, mid as int, 1099511627776, 1099511627776);
        }
        if mid * mid <= n {
            lo = mid;
        } else {
            hi = mid;
        }
    }
    let r = lo as i128;
    proof {
        assert(is_isqrt(n as int, r as int));
        assert(exists|x: int| is_isqrt(n as int, x));
        lemma_isqrt_unique(n as int, r as int, isqrt_of(n as int));
    }
    r
}

} // verus!
