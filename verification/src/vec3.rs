//! Fixed-point 3-vectors and normalization.

use vstd::prelude::*;
use vstd::math::abs;
use vstd::arithmetic::div_mod::{lemma_div_is_ordered, lemma_div_pos_is_pos};
use crate::fixed::{
    Fx, FX_SCALE, fx_mul_spec, fx_div_spec, fx_mul_ok, isqrt_spec, is_isqrt, isqrt64,
    lemma_abs_mul_le, lemma_isqrt_exists, lemma_isqrt_unique, lemma_fx_mul_spec_bound,
};

verus! {

/// A 3-vector of fixed-point scalars.
#[derive(Clone, Copy, Debug, PartialEq, Eq, Structural)]
pub struct Vec3(pub Fx, pub Fx, pub Fx);

impl Vec3 {
    /// Every component has magnitude at most `m` (in raw units).
    pub open spec fn bounded(self, m: int) -> bool {
        &&& -m <= self.0.to_int() <= m
        &&& -m <= self.1.to_int() <= m
        &&& -m <= self.2.to_int() <= m
    }

    /// Componentwise sum.
    pub fn add(self, rhs: Vec3) -> (r: Vec3)
        requires
            i64::MIN <= self.0.to_int() + rhs.0.to_int() <= i64::MAX,
            i64::MIN <= self.1.to_int() + rhs.1.to_int() <= i64::MAX,
            i64::MIN <= self.2.to_int() + rhs.2.to_int() <= i64::MAX,
        ensures
            r.0.to_int() == self.0.to_int() + rhs.0.to_int(),
            r.1.to_int() == self.1.to_int() + rhs.1.to_int(),
            r.2.to_int() == self.2.to_int() + rhs.2.to_int(),
    {
        Vec3(self.0.add(rhs.0), self.1.add(rhs.1), self.2.add(rhs.2))
    }

    /// Componentwise difference.
    pub fn sub(self, rhs: Vec3) -> (r: Vec3)
        requires
            i64::MIN <= self.0.to_int() - rhs.0.to_int() <= i64::MAX,
            i64::MIN <= self.1.to_int() - rhs.1.to_int() <= i64::MAX,
            i64::MIN <= self.2.to_int() - rhs.2.to_int() <= i64::MAX,
        ensures
            r.0.to_int() == self.0.to_int() - rhs.0.to_int(),
            r.1.to_int() == self.1.to_int() - rhs.1.to_int(),
            r.2.to_int() == self.2.to_int() - rhs.2.to_int(),
    {
        Vec3(self.0.sub(rhs.0), self.1.sub(rhs.1), self.2.sub(rhs.2))
    }

    /// Scaling by a fixed-point factor.
    pub fn scale(self, k: Fx) -> (r: Vec3)
        requires
            fx_mul_ok(self.0.to_int(), k.to_int()),
            fx_mul_ok(self.1.to_int(), k.to_int()),
            fx_mul_ok(self.2.to_int(), k.to_int()),
        ensures
            r.0.to_int() == fx_mul_spec(self.0.to_int(), k.to_int()),
            r.1.to_int() == fx_mul_spec(self.1.to_int(), k.to_int()),
            r.2.to_int() == fx_mul_spec(self.2.to_int(), k.to_int()),
    {
        Vec3(self.0.mul(k), self.1.mul(k), self.2.mul(k))
    }
}

/// The cross product of two fixed-point vectors, each product truncated.
pub open spec fn cross_spec(a: Vec3, b: Vec3) -> Vec3 {
    Vec3(
        Fx((fx_mul_spec(a.1.to_int(), b.2.to_int()) - fx_mul_spec(a.2.to_int(), b.1.to_int())) as i64),
        Fx((fx_mul_spec(a.2.to_int(), b.0.to_int()) - fx_mul_spec(a.0.to_int(), b.2.to_int())) as i64),
        Fx((fx_mul_spec(a.0.to_int(), b.1.to_int()) - fx_mul_spec(a.1.to_int(), b.0.to_int())) as i64),
    )
}

impl Vec3 {
    /// The cross product `self x rhs`.
    pub fn cross(self, rhs: Vec3) -> (r: Vec3)
        requires
            self.bounded(0x20_0000),
            rhs.bounded(0x20_0000),
        ensures
            r == cross_spec(self, rhs),
            r.bounded(0x800_0000),
    {
        proof {
            lemma_cross_pair(self.1.to_int(), rhs.2.to_int());
            lemma_cross_pair(self.2.to_int(), rhs.1.to_int());
            lemma_cross_pair(self.2.to_int(), rhs.0.to_int());
            lemma_cross_pair(self.0.to_int(), rhs.2.to_int());
            lemma_cross_pair(self.0.to_int(), rhs.1.to_int());
            lemma_cross_pair(self.1.to_int(), rhs.0.to_int());
        }
        Vec3(
            Fx(self.1.mul(rhs.2).0 - self.2.mul(rhs.1).0),
            Fx(self.2.mul(rhs.0).0 - self.0.mul(rhs.2).0),
            Fx(self.0.mul(rhs.1).0 - self.1.mul(rhs.0).0),
        )
    }
}

/// A product of two `2^21`-bounded raw values is admissible and its
/// truncated product stays within `2^26`.
proof fn lemma_cross_pair(a: int, b: int)
    requires
        -0x20_0000 <= a <= 0x20_0000,
        -0x20_0000 <= b <= 0x20_0000,
    ensures
        fx_mul_ok(a, b),
        -0x400_0000 <= fx_mul_spec(a, b) <= 0x400_0000,
{
    lemma_abs_mul_le(a, b, 0x20_0000, 0x20_0000);
    assert(0x20_0000int * 0x20_0000int == 0x400_0000_0000int) by (nonlinear_arith);
    lemma_fx_mul_spec_bound(a, b, 0x20_0000, 0x20_0000);
    assert(0x400_0000_0000int / 65536int == 0x400_0000int);
}

/// The raw squared length of a vector: the sum of the squared raw
/// components (so it carries two factors of the scale).
pub open spec fn len2_raw_spec(v: Vec3) -> int {
    v.0.to_int() * v.0.to_int() + v.1.to_int() * v.1.to_int() + v.2.to_int() * v.2.to_int()
}

/// The raw length of a vector: the integer square root of the raw squared
/// length, which is again in raw fixed-point units.
pub open spec fn len_raw_spec(v: Vec3) -> int {
    isqrt_spec(len2_raw_spec(v))
}

/// A component of the normalized vector: the component divided by the
/// length, in fixed point.
pub open spec fn norm_comp_spec(v: Vec3, c: int) -> int {
    fx_div_spec(c, len_raw_spec(v))
}

/// Normalizes `v` to unit length (componentwise division by the fixed-point
/// length).  Each resulting component lies in `[-1.0, 1.0]`.
pub fn norm(v: &Vec3) -> (r: Vec3)
    requires
        v.bounded(0x10_0000),
        len2_raw_spec(*v) > 0,
    ensures
        r.0.to_int() == norm_comp_spec(*v, v.0.to_int()),
        r.1.to_int() == norm_comp_spec(*v, v.1.to_int()),
        r.2.to_int() == norm_comp_spec(*v, v.2.to_int()),
        r.bounded(FX_SCALE as int),
{
    proof {
        lemma_abs_mul_le(v.0.to_int(), v.0.to_int(), 0x10_0000, 0x10_0000);
        lemma_abs_mul_le(v.1.to_int(), v.1.to_int(), 0x10_0000, 0x10_0000);
        lemma_abs_mul_le(v.2.to_int(), v.2.to_int(), 0x10_0000, 0x10_0000);
        assert(v.0.to_int() * v.0.to_int() >= 0) by (nonlinear_arith);
        assert(v.1.to_int() * v.1.to_int() >= 0) by (nonlinear_arith);
        assert(v.2.to_int() * v.2.to_int() >= 0) by (nonlinear_arith);
    }
    let x: i64 = v.0.0;
    let y: i64 = v.1.0;
    let z: i64 = v.2.0;
    let d: u64 = ((x * x) as u64) + ((y * y) as u64) + ((z * z) as u64);
    let len: u64 = isqrt64(d);
    proof {
        assert(len >= 1) by {
            assert(is_isqrt(d as int, len as int));
        }
        // |comp| <= len, because comp^2 <= d < (len+1)^2
        lemma_comp_le_len(x as int, d as int, len as int);
        lemma_comp_le_len(y as int, d as int, len as int);
        lemma_comp_le_len(z as int, d as int, len as int);
    }
    let lf = Fx(len as i64);
    let r = Vec3(v.0.div(lf), v.1.div(lf), v.2.div(lf));
    proof {
        lemma_div_unit(x as int, len as int);
        lemma_div_unit(y as int, len as int);
        lemma_div_unit(z as int, len as int);
    }
    r
}

/// If `c^2` is at most `d` and `len` is the integer square root of `d`,
/// then `|c| <= len`.
proof fn lemma_comp_le_len(c: int, d: int, len: int)
    requires
        is_isqrt(d, len),
        c * c <= d,
    ensures
        -len <= c <= len,
{
    assert(-len <= c <= len) by (nonlinear_arith)
        requires
            0 <= len,
            len * len <= d,
            d < (len + 1) * (len + 1),
            c * c <= d,
    ;
}

/// Dividing a component by a length at least as large yields a fixed-point
/// value in `[-1.0, 1.0]`.
proof fn lemma_div_unit(c: int, len: int)
    requires
        1 <= len,
        -len <= c <= len,
    ensures
        -(FX_SCALE as int) <= fx_div_spec(c, len) <= FX_SCALE as int,
{
    let q = (abs(c) as int * (FX_SCALE as int)) / len;
    assert(abs(c) as int * (FX_SCALE as int) <= len * (FX_SCALE as int)) by (nonlinear_arith)
        requires
            0 <= abs(c) as int <= len,
    ;
    lemma_div_is_ordered(abs(c) as int * (FX_SCALE as int), len * (FX_SCALE as int), len);
    assert((len * (FX_SCALE as int)) / len == FX_SCALE as int) by {
        vstd::arithmetic::div_mod::lemma_div_multiples_vanish(FX_SCALE as int, len);
        assert(len * (FX_SCALE as int) == (FX_SCALE as int) * len) by (nonlinear_arith);
    }
    lemma_div_pos_is_pos(abs(c) as int * (FX_SCALE as int), len);
    assert(abs(c) as int * (FX_SCALE as int) >= 0) by (nonlinear_arith)
        requires
            0 <= abs(c) as int,
    ;
}

} // verus!
