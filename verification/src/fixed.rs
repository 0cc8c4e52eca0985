//! Fixed-point scalar arithmetic.
//!
//! Every scalar of the rendering core (coordinates, time, matrix entries,
//! colors) is an `Fx`: a signed 64-bit integer holding the value scaled by
//! `FX_SCALE` (2^16).  Products and quotients truncate toward zero; the spec
//! functions below state that rounding exactly, so each operation's contract
//! pins down the result bit for bit.

use vstd::prelude::*;
use vstd::math::abs;
use vstd::arithmetic::div_mod::{lemma_div_is_ordered, lemma_div_nonincreasing, lemma_div_pos_is_pos};
use vstd::arithmetic::mul::lemma_mul_nonnegative;

verus! {

/// Number of raw units per 1.0: the fixed-point scale.
pub const FX_SCALE: i64 = 65536;

/// A fixed-point scalar; the value it denotes is `raw / 65536`.
#[derive(Clone, Copy, Debug, PartialEq, Eq, Structural)]
pub struct Fx(pub i64);

/// Truncated-toward-zero quotient `n / d` for `d > 0`, as Rust's integer
/// division computes it on a signed numerator.
pub open spec fn trunc_div(n: int, d: int) -> int {
    if n >= 0 {
        n / d
    } else {
        -((-n) / d)
    }
}

/// The raw payload of a fixed-point product: `a * b / FX_SCALE`, truncated
/// toward zero.
pub open spec fn fx_mul_spec(a: int, b: int) -> int {
    trunc_div(a * b, FX_SCALE as int)
}

/// The raw payload of a fixed-point quotient: `a * FX_SCALE / b`, truncated
/// toward zero.  Meaningful only for `b != 0`.
pub open spec fn fx_div_spec(a: int, b: int) -> int {
    let q = (abs(a) as int * (FX_SCALE as int)) / (abs(b) as int);
    if (a >= 0) == (b >= 0) {
        q
    } else {
        -q
    }
}

/// The product of the raw payloads stays well inside the scaled 64-bit
/// range, so `mul` can neither overflow its intermediate nor its result.
pub open spec fn fx_mul_ok(a: int, b: int) -> bool {
    -0x4000_0000_0000_0000_0000 <= a * b <= 0x4000_0000_0000_0000_0000
}

impl Fx {
    /// The raw fixed-point payload as a mathematical integer.
    pub open spec fn to_int(self) -> int {
        self.0 as int
    }

    /// Builds the fixed-point value `n.0`.
    pub fn whole(n: i32) -> (r: Fx)
        ensures
            r.to_int() == n * FX_SCALE,
    {
        let w: i64 = n as i64;
        assert(-0x8000_0000_0000_0000int <= w * 65536 < 0x8000_0000_0000_0000int) by (nonlinear_arith)
            requires
                -0x8000_0000int <= w <= 0x8000_0000int,
        ;
        Fx(w * 65536)
    }

    /// Fixed-point sum; the raw payloads add.
    pub fn add(self, rhs: Fx) -> (r: Fx)
        requires
            i64::MIN <= self.to_int() + rhs.to_int() <= i64::MAX,
        ensures
            r.to_int() == self.to_int() + rhs.to_int(),
    {
        Fx(self.0 + rhs.0)
    }

    /// Fixed-point difference; the raw payloads subtract.
    pub fn sub(self, rhs: Fx) -> (r: Fx)
        requires
            i64::MIN <= self.to_int() - rhs.to_int() <= i64::MAX,
        ensures
            r.to_int() == self.to_int() - rhs.to_int(),
    {
        Fx(self.0 - rhs.0)
    }

    /// Negation.
    pub fn neg(self) -> (r: Fx)
        requires
            self.to_int() > i64::MIN,
        ensures
            r.to_int() == -self.to_int(),
    {
        Fx(-self.0)
    }

    /// Magnitude.
    pub fn abs(self) -> (r: Fx)
        requires
            self.to_int() > i64::MIN,
        ensures
            r.to_int() == abs(self.to_int()),
    {
        if self.0 < 0 {
            Fx(-self.0)
        } else {
            Fx(self.0)
        }
    }

    /// Fixed-point product, truncated toward zero.
    pub fn mul(self, rhs: Fx) -> (r: Fx)
        requires
            fx_mul_ok(self.to_int(), rhs.to_int()),
        ensures
            r.to_int() == fx_mul_spec(self.to_int(), rhs.to_int()),
    {
        let p: i128 = (self.0 as i128) * (rhs.0 as i128);
        if p >= 0 {
            let q: u128 = (p as u128) / 65536;
            assert(q <= 0x4000_0000_0000_0000_0000int / 65536int) by {
                lemma_div_is_ordered(p as int, 0x4000_0000_0000_0000_0000, 65536);
            }
            Fx(q as i64)
        } else {
            let m: u128 = (-p) as u128;
            let q: u128 = m / 65536;
            assert(q <= 0x4000_0000_0000_0000_0000int / 65536int) by {
                lemma_div_is_ordered(m as int, 0x4000_0000_0000_0000_0000, 65536);
            }
            Fx(-(q as i64))
        }
    }

    /// Fixed-point quotient, truncated toward zero.
    pub fn div(self, rhs: Fx) -> (r: Fx)
        requires
            rhs.to_int() != 0,
            -0x4000_0000_0000 <= self.to_int() <= 0x4000_0000_0000,
        ensures
            r.to_int() == fx_div_spec(self.to_int(), rhs.to_int()),
    {
        let num: u128 = if self.0 < 0 {
            ((-(self.0 as i128)) as u128) * 65536
        } else {
            (self.0 as u128) * 65536
        };
        let den: u128 = if rhs.0 < 0 {
            (-(rhs.0 as i128)) as u128
        } else {
            rhs.0 as u128
        };
        let q: u128 = num / den;
        assert(q <= num) by {
            lemma_div_nonincreasing(num as int, den as int);
        }
        if (self.0 < 0) == (rhs.0 < 0) {
            Fx(q as i64)
        } else {
            Fx(-(q as i64))
        }
    }

    /// Clamps the value into `[lo, hi]`.
    pub fn clamp(self, lo: Fx, hi: Fx) -> (r: Fx)
        requires
            lo.to_int() <= hi.to_int(),
        ensures
            r.to_int() == if self.to_int() < lo.to_int() {
                lo.to_int()
            } else if self.to_int() > hi.to_int() {
                hi.to_int()
            } else {
                self.to_int()
            },
            lo.to_int() <= r.to_int() <= hi.to_int(),
    {
        if self.0 < lo.0 {
            lo
        } else if self.0 > hi.0 {
            hi
        } else {
            self
        }
    }
}

/// Bounds on two factors bound their product.
pub proof fn lemma_abs_mul_le(a: int, b: int, aa: int, bb: int)
    requires
        -aa <= a <= aa,
        -bb <= b <= bb,
    ensures
        -(aa * bb) <= a * b <= aa * bb,
{
    assert(-(aa * bb) <= a * b <= aa * bb) by (nonlinear_arith)
        requires
            -aa <= a <= aa,
            -bb <= b <= bb,
    ;
}

/// Bounds on the factors bound the truncated fixed-point product.
pub proof fn lemma_fx_mul_spec_bound(a: int, b: int, aa: int, bb: int)
    requires
        -aa <= a <= aa,
        -bb <= b <= bb,
    ensures
        -((aa * bb) / (FX_SCALE as int)) <= fx_mul_spec(a, b) <= (aa * bb) / (FX_SCALE as int),
{
    lemma_abs_mul_le(a, b, aa, bb);
    assert(0 <= aa && 0 <= bb);
    lemma_mul_nonnegative(aa, bb);
    let p = a * b;
    let s = FX_SCALE as int;
    lemma_div_pos_is_pos(aa * bb, s);
    if p >= 0 {
        lemma_div_is_ordered(p, aa * bb, s);
        lemma_div_pos_is_pos(p, s);
    } else {
        lemma_div_is_ordered(-p, aa * bb, s);
        lemma_div_pos_is_pos(-p, s);
    }
}

/// Multiplying by the fixed-point one (or zero) is exact.
pub proof fn lemma_fx_mul_one(a: int)
    ensures
        fx_mul_spec(a, FX_SCALE as int) == a,
        fx_mul_spec(a, 0) == 0,
        fx_mul_spec(0, a) == 0,
{
    let s = FX_SCALE as int;
    if a >= 0 {
        assert(a * s == s * a) by (nonlinear_arith);
        vstd::arithmetic::div_mod::lemma_div_multiples_vanish(a, s);
    } else {
        assert(-(a * s) == s * (-a)) by (nonlinear_arith);
        vstd::arithmetic::div_mod::lemma_div_multiples_vanish(-a, s);
        assert(a * s < 0) by (nonlinear_arith)
            requires
                a < 0,
                s > 0,
        ;
    }
    assert(a * 0 == 0 && 0 * a == 0) by (nonlinear_arith);
}

/// The truncated quotient of `n` by a positive `d` has magnitude at most
/// `|n|`.
pub proof fn lemma_trunc_div_bound(n: int, d: int)
    requires
        d >= 1,
    ensures
        -abs(n) as int <= trunc_div(n, d) <= abs(n) as int,
        n >= 0 ==> 0 <= trunc_div(n, d),
        n <= 0 ==> trunc_div(n, d) <= 0,
{
    if n >= 0 {
        lemma_div_nonincreasing(n, d);
        lemma_div_pos_is_pos(n, d);
    } else {
        lemma_div_nonincreasing(-n, d);
        lemma_div_pos_is_pos(-n, d);
    }
}

/// `r` is the integer square root of `x`.
pub open spec fn is_isqrt(x: int, r: int) -> bool {
    &&& 0 <= r
    &&& r * r <= x
    &&& x < (r + 1) * (r + 1)
}

/// The integer square root, as a value; `lemma_isqrt_exists` and
/// `lemma_isqrt_unique` justify the choice.
pub open spec fn isqrt_spec(x: int) -> int {
    choose|r: int| is_isqrt(x, r)
}

/// Every nonnegative integer has an integer square root.
pub proof fn lemma_isqrt_exists(x: int)
    requires
        x >= 0,
    ensures
        is_isqrt(x, isqrt_spec(x)),
    decreases x,
{
    if x == 0 {
        assert(is_isqrt(0, 0));
    } else {
        lemma_isqrt_exists(x - 1);
        let r = isqrt_spec(x - 1);
        if x < (r + 1) * (r + 1) {
            assert(is_isqrt(x, r));
        } else {
            assert(x == (r + 1) * (r + 1));
            assert((r + 1) * (r + 1) < (r + 2) * (r + 2)) by (nonlinear_arith)
                requires
                    r >= 0,
            ;
            assert(is_isqrt(x, r + 1));
        }
    }
}

/// Integer square roots are unique.
pub proof fn lemma_isqrt_unique(x: int, r1: int, r2: int)
    requires
        is_isqrt(x, r1),
        is_isqrt(x, r2),
    ensures
        r1 == r2,
{
    assert(r1 == r2) by (nonlinear_arith)
        requires
            0 <= r1,
            0 <= r2,
            r1 * r1 <= x,
            x < (r1 + 1) * (r1 + 1),
            r2 * r2 <= x,
            x < (r2 + 1) * (r2 + 1),
    ;
}

/// Integer square root of a 64-bit value, by bisection.
pub fn isqrt64(x: u64) -> (r: u64)
    ensures
        is_isqrt(x as int, r as int),
        r as int == isqrt_spec(x as int),
        r <= 0xFFFF_FFFF,
{
    let mut lo: u64 = 0;
    let mut hi: u64 = 0x1_0000_0000;
    while hi - lo > 1
        invariant
            lo < hi <= 0x1_0000_0000,
            (lo as int) * (lo as int) <= x as int,
            (x as int) < (hi as int) * (hi as int),
        decreases hi - lo,
    {
        let mid: u64 = lo + (hi - lo) / 2;
        proof {
            lemma_abs_mul_le(mid as int, mid as int, 0x1_0000_0000, 0x1_0000_0000);
        }
        let sq: u128 = (mid as u128) * (mid as u128);
        if sq <= x as u128 {
            lo = mid;
        } else {
            hi = mid;
        }
    }
    proof {
        assert(is_isqrt(x as int, lo as int));
        lemma_isqrt_exists(x as int);
        lemma_isqrt_unique(x as int, lo as int, isqrt_spec(x as int));
    }
    lo
}

} // verus!
