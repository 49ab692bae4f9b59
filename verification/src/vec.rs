//! Three-component vectors over the fixed-point scalar.

use vstd::prelude::*;
use crate::fixed::{
    fits, sat, sp_add, sp_sub, sp_mul, sp_div, sp_sqrt, mag, tdiv, is_isqrt,
    fadd, fsub, fmul, fdiv, fneg, fsqrt, SCALE, ONE, SAT,
};

verus! {

/// A vector (or point, or color) with three fixed-point components.
#[derive(Clone, Copy, Debug, PartialEq, Eq, Structural)]
pub struct Vec3 {
    pub _x: i128,
    pub _y: i128,
    pub _z: i128,
}

/// A vector is well formed when each component fits the scalar range.
pub open spec fn wf3(v: Vec3) -> bool {
    fits(v._x as int) && fits(v._y as int) && fits(v._z as int)
}

/// Componentwise saturating sum.
pub open spec fn sp_vadd(a: Vec3, b: Vec3) -> Vec3 {
    Vec3 {
        _x: sp_add(a._x as int, b._x as int) as i128,
        _y: sp_add(a._y as int, b._y as int) as i128,
        _z: sp_add(a._z as int, b._z as int) as i128,
    }
}

/// Componentwise saturating difference.
pub open spec fn sp_vsub(a: Vec3, b: Vec3) -> Vec3 {
    Vec3 {
        _x: sp_sub(a._x as int, b._x as int) as i128,
        _y: sp_sub(a._y as int, b._y as int) as i128,
        _z: sp_sub(a._z as int, b._z as int) as i128,
    }
}

/// Componentwise saturating product.
pub open spec fn sp_vmul(a: Vec3, b: Vec3) -> Vec3 {
    Vec3 {
        _x: sp_mul(a._x as int, b._x as int) as i128,
        _y: sp_mul(a._y as int, b._y as int) as i128,
        _z: sp_mul(a._z as int, b._z as int) as i128,
    }
}

/// Componentwise saturating quotient.
pub open spec fn sp_vdiv(a: Vec3, b: Vec3) -> Vec3 {
    Vec3 {
        _x: sp_div(a._x as int, b._x as int) as i128,
        _y: sp_div(a._y as int, b._y as int) as i128,
        _z: sp_div(a._z as int, b._z as int) as i128,
    }
}

/// The vector scaled by `k`.
pub open spec fn sp_vscale(a: Vec3, k: int) -> Vec3 {
    Vec3 {
        _x: sp_mul(a._x as int, k) as i128,
        _y: sp_mul(a._y as int, k) as i128,
        _z: sp_mul(a._z as int, k) as i128,
    }
}

/// Each component divided by `k`.
pub open spec fn sp_vdiv_s(a: Vec3, k: int) -> Vec3 {
    Vec3 {
        _x: sp_div(a._x as int, k) as i128,
        _y: sp_div(a._y as int, k) as i128,
        _z: sp_div(a._z as int, k) as i128,
    }
}

/// The negated vector.
pub open spec fn sp_vneg(a: Vec3) -> Vec3 {
    Vec3 { _x: (-(a._x as int)) as i128, _y: (-(a._y as int)) as i128, _z: (-(a._z as int)) as i128 }
}

/// The inner product of two vectors, in scalar units.
pub open spec fn sp_dot(a: Vec3, b: Vec3) -> int {
    sp_add(
        sp_add(sp_mul(a._x as int, b._x as int), sp_mul(a._y as int, b._y as int)),
        sp_mul(a._z as int, b._z as int),
    )
}

/// The cross product of two vectors.
pub open spec fn sp_cross(a: Vec3, b: Vec3) -> Vec3 {
    Vec3 {
        _x: sp_sub(sp_mul(a._y as int, b._z as int), sp_mul(a._z as int, b._y as int)) as i128,
        _y: (-sp_sub(sp_mul(a._x as int, b._z as int), sp_mul(a._z as int, b._x as int))) as i128,
        _z: sp_sub(sp_mul(a._x as int, b._y as int), sp_mul(a._y as int, b._x as int)) as i128,
    }
}

/// The squared length of a vector, in scalar units.
pub open spec fn sp_length_squared(a: Vec3) -> int {
    sp_dot(a, a)
}

/// The length of a vector: the fixed-point square root of its squared length.
pub open spec fn sp_length(a: Vec3) -> int {
    sp_sqrt(sp_length_squared(a))
}

/// The vector divided by its own length.  For a zero vector the quotients
/// saturate, the fixed-point image of the non-finite values floating point
/// would produce; that sharp edge is accepted, not corrected.
pub open spec fn sp_normalize(a: Vec3) -> Vec3 {
    sp_vdiv_s(a, sp_length(a))
}

/// A square scalar is nonnegative.
pub proof fn lemma_sq_nonneg(a: int)
    ensures
        sp_mul(a, a) >= 0,
{
    assert(a * a >= 0) by (nonlinear_arith);
}

/// The squared length of any vector is nonnegative.
pub proof fn lemma_length_squared_nonneg(a: Vec3)
    ensures
        sp_length_squared(a) >= 0,
{
    lemma_sq_nonneg(a._x as int);
    lemma_sq_nonneg(a._y as int);
    lemma_sq_nonneg(a._z as int);
}

/// Normalizing scales a vector to unit length.  At scalar precision this is
/// exact whenever the rounding steps vanish; here that is shown for a
/// vector along an axis whose square is exactly representable (the general
/// statement holds up to representation tolerance, and is exercised on
/// arbitrary vectors by tests).
pub proof fn lemma_normalize_unit_length(z: int)
    requires
        0 < z <= 0x80_0000_0000,
        (z * z) % (SCALE as int) == 0,
    ensures
        sp_normalize(Vec3 { _x: 0i128, _y: 0i128, _z: z as i128 }) == (Vec3 {
            _x: 0i128,
            _y: 0i128,
            _z: ONE,
        }),
        sp_length(sp_normalize(Vec3 { _x: 0i128, _y: 0i128, _z: z as i128 })) == ONE as int,
{
    let v = Vec3 { _x: 0i128, _y: 0i128, _z: z as i128 };
    assert(z * z <= 0x80_0000_0000 * 0x80_0000_0000) by (nonlinear_arith)
        requires
            0 < z <= 0x80_0000_0000;
    vstd::arithmetic::div_mod::lemma_fundamental_div_mod(z * z, SCALE as int);
    let q = (z * z) / (SCALE as int);
    assert(z * z == q * (SCALE as int));
    assert(sp_length_squared(v) == q) by {
        assert(mag(z * z) == z * z && z * z >= 0) by (nonlinear_arith)
            requires
                0 < z;
        assert(crate::fixed::tdiv(z * z, SCALE as int) == q);
        crate::fixed::lemma_sat_id(q);
    }
    assert(crate::fixed::is_isqrt(q * (SCALE as int), z)) by (nonlinear_arith)
        requires
            0 < z,
            q * (SCALE as int) == z * z;
    assert(exists|r: int| #[trigger] crate::fixed::is_isqrt(q * (SCALE as int), r));
    crate::fixed::lemma_isqrt_unique(
        q * (SCALE as int),
        z,
        crate::fixed::isqrt_of(q * (SCALE as int)),
    );
    assert(sp_length(v) == z);
    crate::fixed::lemma_sp_div_self(z);
    assert(sp_div(0, z) == 0);
    let nv = sp_normalize(v);
    assert(nv == (Vec3 { _x: 0i128, _y: 0i128, _z: ONE }));
    crate::fixed::lemma_sp_mul_one(ONE as int);
    assert(sp_length_squared(nv) == ONE as int);
    assert(crate::fixed::is_isqrt((ONE as int) * (SCALE as int), ONE as int)) by (nonlinear_arith);
    assert(exists|r: int| #[trigger] crate::fixed::is_isqrt((ONE as int) * (SCALE as int), r));
    crate::fixed::lemma_isqrt_unique(
        (ONE as int) * (SCALE as int),
        ONE as int,
        crate::fixed::isqrt_of((ONE as int) * (SCALE as int)),
    );
}

impl Vec3 {
    /// A vector is well formed when each component fits the scalar range.
    pub open spec fn wf(self) -> bool {
        wf3(self)
    }

    pub fn new(x: i128, y: i128, z: i128) -> (v: Vec3)
        requires
            fits(x as int),
            fits(y as int),
            fits(z as int),
        ensures
            v == (Vec3 { _x: x, _y: y, _z: z }),
            v.wf(),
    {
        Vec3 { _x: x, _y: y, _z: z }
    }

    /// The zero vector.
    pub fn zero() -> (v: Vec3)
        ensures
            v == (Vec3 { _x: 0i128, _y: 0i128, _z: 0i128 }),
            v.wf(),
    {
        Vec3 { _x: 0, _y: 0, _z: 0 }
    }

    /// The x axis.
    pub fn unit_x() -> (v: Vec3)
        ensures
            v == (Vec3 { _x: ONE, _y: 0i128, _z: 0i128 }),
            v.wf(),
    {
        Vec3 { _x: ONE, _y: 0, _z: 0 }
    }

    /// The y axis.
    pub fn unit_y() -> (v: Vec3)
        ensures
            v == (Vec3 { _x: 0i128, _y: ONE, _z: 0i128 }),
            v.wf(),
    {
        Vec3 { _x: 0, _y: ONE, _z: 0 }
    }

    /// The z axis.
    pub fn unit_z() -> (v: Vec3)
        ensures
            v == (Vec3 { _x: 0i128, _y: 0i128, _z: ONE }),
            v.wf(),
    {
        Vec3 { _x: 0, _y: 0, _z: ONE }
    }

    /// The vector with every component equal to `k`.
    pub fn splat(k: i128) -> (v: Vec3)
        requires
            fits(k as int),
        ensures
            v == (Vec3 { _x: k, _y: k, _z: k }),
            v.wf(),
    {
        Vec3 { _x: k, _y: k, _z: k }
    }

    /// The vector of ones.
    pub fn one() -> (v: Vec3)
        ensures
            v == (Vec3 { _x: ONE, _y: ONE, _z: ONE }),
            v.wf(),
    {
        Vec3 { _x: ONE, _y: ONE, _z: ONE }
    }

    pub fn x(self) -> (r: i128)
        ensures
            r == self._x,
    {
        self._x
    }

    pub fn y(self) -> (r: i128)
        ensures
            r == self._y,
    {
        self._y
    }

    pub fn z(self) -> (r: i128)
        ensures
            r == self._z,
    {
        self._z
    }

    pub fn set_x(&mut self, v: i128)
        requires
            fits(v as int),
            old(self).wf(),
        ensures
            *final(self) == (Vec3 { _x: v, ..*old(self) }),
            final(self).wf(),
    {
        self._x = v;
    }

    pub fn set_y(&mut self, v: i128)
        requires
            fits(v as int),
            old(self).wf(),
        ensures
            *final(self) == (Vec3 { _y: v, ..*old(self) }),
            final(self).wf(),
    {
        self._y = v;
    }

    pub fn set_z(&mut self, v: i128)
        requires
            fits(v as int),
            old(self).wf(),
        ensures
            *final(self) == (Vec3 { _z: v, ..*old(self) }),
            final(self).wf(),
    {
        self._z = v;
    }

    /// The components as an array.
    pub fn elements(&self) -> (r: [i128; 3])
        ensures
            r[0] == self._x,
            r[1] == self._y,
            r[2] == self._z,
    {
        [self._x, self._y, self._z]
    }

    /// The component selected by `axis` (0, 1 or 2).
    pub fn component(&self, axis: usize) -> (r: i128)
        requires
            axis < 3,
        ensures
            axis == 0 ==> r == self._x,
            axis == 1 ==> r == self._y,
            axis == 2 ==> r == self._z,
    {
        if axis == 0 {
            self._x
        } else if axis == 1 {
            self._y
        } else {
            self._z
        }
    }

    pub fn add(self, rhs: Vec3) -> (r: Vec3)
        requires
            self.wf(),
            rhs.wf(),
        ensures
            r == sp_vadd(self, rhs),
            r.wf(),
    {
        Vec3 { _x: fadd(self._x, rhs._x), _y: fadd(self._y, rhs._y), _z: fadd(self._z, rhs._z) }
    }

    /// Adds `k` to every component.
    pub fn add_scalar(self, k: i128) -> (r: Vec3)
        requires
            self.wf(),
            fits(k as int),
        ensures
            r == sp_vadd(self, Vec3 { _x: k, _y: k, _z: k }),
            r.wf(),
    {
        Vec3 { _x: fadd(self._x, k), _y: fadd(self._y, k), _z: fadd(self._z, k) }
    }

    pub fn sub(self, rhs: Vec3) -> (r: Vec3)
        requires
            self.wf(),
            rhs.wf(),
        ensures
            r == sp_vsub(self, rhs),
            r.wf(),
    {
        Vec3 { _x: fsub(self._x, rhs._x), _y: fsub(self._y, rhs._y), _z: fsub(self._z, rhs._z) }
    }

    /// Subtracts `k` from every component.
    pub fn sub_scalar(self, k: i128) -> (r: Vec3)
        requires
            self.wf(),
            fits(k as int),
        ensures
            r == sp_vsub(self, Vec3 { _x: k, _y: k, _z: k }),
            r.wf(),
    {
        Vec3 { _x: fsub(self._x, k), _y: fsub(self._y, k), _z: fsub(self._z, k) }
    }

    /// Componentwise product.
    pub fn mul(self, rhs: Vec3) -> (r: Vec3)
        requires
            self.wf(),
            rhs.wf(),
        ensures
            r == sp_vmul(self, rhs),
            r.wf(),
    {
        Vec3 { _x: fmul(self._x, rhs._x), _y: fmul(self._y, rhs._y), _z: fmul(self._z, rhs._z) }
    }

    /// Componentwise quotient.
    pub fn div(self, rhs: Vec3) -> (r: Vec3)
        requires
            self.wf(),
            rhs.wf(),
        ensures
            r == sp_vdiv(self, rhs),
            r.wf(),
    {
        Vec3 { _x: fdiv(self._x, rhs._x), _y: fdiv(self._y, rhs._y), _z: fdiv(self._z, rhs._z) }
    }

    /// The vector scaled by `k`.
    pub fn scale(self, k: i128) -> (r: Vec3)
        requires
            self.wf(),
            fits(k as int),
        ensures
            r == sp_vscale(self, k as int),
            r.wf(),
    {
        Vec3 { _x: fmul(self._x, k), _y: fmul(self._y, k), _z: fmul(self._z, k) }
    }

    /// Each component divided by `k`.
    pub fn div_scalar(self, k: i128) -> (r: Vec3)
        requires
            self.wf(),
            fits(k as int),
        ensures
            r == sp_vdiv_s(self, k as int),
            r.wf(),
    {
        Vec3 { _x: fdiv(self._x, k), _y: fdiv(self._y, k), _z: fdiv(self._z, k) }
    }

    pub fn neg(self) -> (r: Vec3)
        requires
            self.wf(),
        ensures
            r == sp_vneg(self),
            r.wf(),
    {
        Vec3 { _x: fneg(self._x), _y: fneg(self._y), _z: fneg(self._z) }
    }

    pub fn add_assign(&mut self, rhs: Vec3)
        requires
            old(self).wf(),
            rhs.wf(),
        ensures
            *final(self) == sp_vadd(*old(self), rhs),
            final(self).wf(),
    {
        *self = self.add(rhs);
    }

    pub fn sub_assign(&mut self, rhs: Vec3)
        requires
            old(self).wf(),
            rhs.wf(),
        ensures
            *final(self) == sp_vsub(*old(self), rhs),
            final(self).wf(),
    {
        *self = self.sub(rhs);
    }

    pub fn mul_assign(&mut self, rhs: Vec3)
        requires
            old(self).wf(),
            rhs.wf(),
        ensures
            *final(self) == sp_vmul(*old(self), rhs),
            final(self).wf(),
    {
        *self = self.mul(rhs);
    }

    pub fn div_assign(&mut self, rhs: Vec3)
        requires
            old(self).wf(),
            rhs.wf(),
        ensures
            *final(self) == sp_vdiv(*old(self), rhs),
            final(self).wf(),
    {
        *self = self.div(rhs);
    }

    /// The inner product.
    pub fn dot(v1: Vec3, v2: Vec3) -> (r: i128)
        requires
            v1.wf(),
            v2.wf(),
        ensures
            r == sp_dot(v1, v2),
            fits(r as int),
    {
        fadd(fadd(fmul(v1._x, v2._x), fmul(v1._y, v2._y)), fmul(v1._z, v2._z))
    }

    /// The cross product.
    pub fn cross(v1: Vec3, v2: Vec3) -> (r: Vec3)
        requires
            v1.wf(),
            v2.wf(),
        ensures
            r == sp_cross(v1, v2),
            r.wf(),
    {
        Vec3 {
            _x: fsub(fmul(v1._y, v2._z), fmul(v1._z, v2._y)),
            _y: fneg(fsub(fmul(v1._x, v2._z), fmul(v1._z, v2._x))),
            _z: fsub(fmul(v1._x, v2._y), fmul(v1._y, v2._x)),
        }
    }

    /// The squared length, in scalar units.
    pub fn length_squared(&self) -> (r: i128)
        requires
            self.wf(),
        ensures
            r == sp_length_squared(*self),
            r >= 0,
            fits(r as int),
    {
        proof {
            lemma_length_squared_nonneg(*self);
        }
        Vec3::dot(*self, *self)
    }

    /// The length, in scalar units.
    pub fn length(&self) -> (r: i128)
        requires
            self.wf(),
        ensures
            r == sp_length(*self),
            r >= 0,
            fits(r as int),
    {
        let s = self.length_squared();
        fsqrt(s)
    }

    /// The vector divided by its own length; for a zero vector the result
    /// saturates (the accepted counterpart of the non-finite values floating
    /// point produces there).
    pub fn normalize(&self) -> (r: Vec3)
        requires
            self.wf(),
        ensures
            r == sp_normalize(*self),
            r.wf(),
    {
        let len = self.length();
        self.div_scalar(len)
    }

    /// Whether the squared length is zero up to the representation tolerance.
    pub fn is_zero_length(self) -> (r: bool)
        requires
            self.wf(),
        ensures
            r == crate::util::sp_approx_equal(sp_length_squared(self), 0),
    {
        let l = self.length_squared();
        crate::util::approx_equal(l, 0)
    }
}

impl core::convert::From<[i128; 3]> for Vec3 {
    /// A vector from an array of components.
    fn from(arr: [i128; 3]) -> (v: Vec3) {
        Vec3 { _x: arr[0], _y: arr[1], _z: arr[2] }
    }
}

impl vstd::std_specs::convert::FromSpecImpl<[i128; 3]> for Vec3 {
    open spec fn obeys_from_spec() -> bool {
        true
    }

    open spec fn from_spec(arr: [i128; 3]) -> Vec3 {
        Vec3 { _x: arr[0], _y: arr[1], _z: arr[2] }
    }
}

impl core::convert::From<(i128, i128, i128)> for Vec3 {
    /// A vector from a tuple of components.
    fn from(tup: (i128, i128, i128)) -> (v: Vec3) {
        Vec3 { _x: tup.0, _y: tup.1, _z: tup.2 }
    }
}

impl vstd::std_specs::convert::FromSpecImpl<(i128, i128, i128)> for Vec3 {
    open spec fn obeys_from_spec() -> bool {
        true
    }

    open spec fn from_spec(tup: (i128, i128, i128)) -> Vec3 {
        Vec3 { _x: tup.0, _y: tup.1, _z: tup.2 }
    }
}

} // verus!
