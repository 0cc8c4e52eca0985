//! Fixed-point sine and cosine.
//!
//! Angles are `Fx` values in radians.  The implementation reduces the angle
//! to a quarter period and evaluates the odd Taylor polynomial
//! `u - u^3/6 + u^5/120` in truncating fixed-point arithmetic, clamping the
//! result into `[0, 1]`; the full wave is assembled from the quarter wave by
//! symmetry.  The period is the constant `FX_TWO_PI`, which matches
//! `2*pi*65536` to within about one raw unit, so the wave is exactly
//! periodic in that constant.  The clamp guarantees the range bound
//! `-1.0 <= sin <= 1.0` exactly, which downstream range arguments rely on.

use vstd::prelude::*;
use vstd::arithmetic::div_mod::{
    lemma_div_is_ordered,
    lemma_div_pos_is_pos,
    lemma_fundamental_div_mod,
    lemma_mod_division_less_than_divisor,
    lemma_div_multiples_vanish,
};
use vstd::arithmetic::mul::lemma_mul_nonnegative;
use crate::fixed::{Fx, FX_SCALE, lemma_abs_mul_le};

verus! {

/// One full turn (2*pi), in raw fixed-point angle units.
pub const FX_TWO_PI: i64 = 411776;

/// Half a turn (pi), in raw fixed-point angle units.
pub const FX_PI: i64 = 205888;

/// A quarter turn (pi/2), in raw fixed-point angle units.
pub const FX_HALF_PI: i64 = 102944;

/// `u^2` in truncating fixed point.
pub open spec fn sin_u2(u: int) -> int {
    (u * u) / (FX_SCALE as int)
}

/// `u^3` in truncating fixed point.
pub open spec fn sin_u3(u: int) -> int {
    (sin_u2(u) * u) / (FX_SCALE as int)
}

/// `u^5` in truncating fixed point.
pub open spec fn sin_u5(u: int) -> int {
    (sin_u3(u) * sin_u2(u)) / (FX_SCALE as int)
}

/// The truncated Taylor polynomial `u - u^3/6 + u^5/120` on raw units,
/// meaningful for `0 <= u <= FX_HALF_PI`.
pub open spec fn sin_poly_spec(u: int) -> int {
    u - sin_u3(u) / 6 + sin_u5(u) / 120
}

/// The quarter-wave value: the polynomial clamped into `[0, FX_SCALE]`.
pub open spec fn sin_quarter_spec(u: int) -> int {
    let p = sin_poly_spec(u);
    if p < 0 {
        0
    } else if p > FX_SCALE {
        FX_SCALE as int
    } else {
        p
    }
}

/// Sine of a nonnegative raw angle: reduce modulo one turn, then fold the
/// four quadrants onto the quarter wave.
pub open spec fn sin_nonneg_spec(x: int) -> int {
    let p = x % (FX_TWO_PI as int);
    if p < FX_HALF_PI {
        sin_quarter_spec(p)
    } else if p < FX_PI {
        sin_quarter_spec(FX_PI - p)
    } else if p < FX_PI + FX_HALF_PI {
        -sin_quarter_spec(p - FX_PI)
    } else {
        -sin_quarter_spec(FX_TWO_PI - p)
    }
}

/// Sine of any raw angle, by oddness.
pub open spec fn sin_spec(x: int) -> int {
    if x >= 0 {
        sin_nonneg_spec(x)
    } else {
        -sin_nonneg_spec(-x)
    }
}

/// Cosine, as the sine shifted a quarter turn.
pub open spec fn cos_spec(x: int) -> int {
    sin_spec(x + FX_HALF_PI)
}

/// Bounds for each power term on the quarter-wave domain; in particular the
/// cubic correction never exceeds the linear term, so the polynomial stays
/// nonnegative.
pub proof fn lemma_sin_poly_range(u: int)
    requires
        0 <= u <= FX_HALF_PI,
    ensures
        0 <= sin_u2(u) <= 161704,
        0 <= sin_u3(u) <= 254006,
        0 <= sin_u5(u) <= 626737,
        sin_u3(u) / 6 <= u,
        0 <= sin_u3(u) / 6,
        0 <= sin_u5(u) / 120 <= 5222,
        0 <= sin_poly_spec(u) <= 110000,
{
    let s = FX_SCALE as int;
    let u2 = sin_u2(u);
    let u3 = sin_u3(u);
    let u5 = sin_u5(u);

    lemma_mul_nonnegative(u, u);
    lemma_div_pos_is_pos(u * u, s);
    lemma_mul_nonnegative(u2, u);
    lemma_div_pos_is_pos(u2 * u, s);
    lemma_mul_nonnegative(u3, u2);
    lemma_div_pos_is_pos(u3 * u2, s);

    // u2 <= (102944 * 102944) / 65536 = 161704
    assert(u * u <= 102944 * 102944) by {
        lemma_abs_mul_le(u, u, 102944, 102944);
    }
    lemma_div_is_ordered(u * u, 102944int * 102944, s);
    assert(u2 <= 161704);

    // u3 * s^2 <= u * u * u  (truncation only loses)
    lemma_fundamental_div_mod(u * u, s);
    lemma_mod_division_less_than_divisor(u * u, s);
    assert(s * u2 <= u * u);
    lemma_fundamental_div_mod(u2 * u, s);
    lemma_mod_division_less_than_divisor(u2 * u, s);
    assert(s * u3 <= u2 * u);

    // hence u3 <= 6*u, so the cubic correction never exceeds the linear term
    assert(u3 <= 6 * u) by (nonlinear_arith)
        requires
            0 <= u <= 102944,
            0 <= u2,
            0 <= u3,
            65536 * u2 <= u * u,
            65536 * u3 <= u2 * u,
    ;
    assert(u3 / 6 <= (6 * u) / 6) by {
        lemma_div_is_ordered(u3, 6 * u, 6);
    }
    assert((6 * u) / 6 == u) by {
        lemma_div_multiples_vanish(u, 6);
    }
    assert(u3 / 6 <= u);
    lemma_div_pos_is_pos(u3, 6);
    lemma_div_pos_is_pos(u5, 120);

    // u3 <= (161704 * 102944) / 65536 = 254006
    assert(u2 * u <= 161704 * 102944) by {
        lemma_abs_mul_le(u2, u, 161704, 102944);
    }
    lemma_div_is_ordered(u2 * u, 161704int * 102944, s);
    assert(u3 <= 254006);

    // u5 <= (254006 * 161704) / 65536 = 626737, so u5 / 120 <= 5222
    assert(u3 * u2 <= 254006 * 161704) by {
        lemma_abs_mul_le(u3, u2, 254006, 161704);
    }
    lemma_div_is_ordered(u3 * u2, 254006int * 161704, s);
    assert(u5 <= 626737);
    lemma_div_is_ordered(u5, 626737, 120);
    assert(u5 / 120 <= 5222);
}

/// The quarter-wave evaluation, on raw units.
fn sin_quarter(u: u64) -> (r: u64)
    requires
        u <= FX_HALF_PI as u64,
    ensures
        r as int == sin_quarter_spec(u as int),
        r <= FX_SCALE as u64,
{
    proof {
        lemma_sin_poly_range(u as int);
        lemma_abs_mul_le(u as int, u as int, 102944, 102944);
    }
    let u2: u64 = (u * u) / 65536;
    proof {
        lemma_abs_mul_le(u2 as int, u as int, 161704, 102944);
    }
    let u3: u64 = (u2 * u) / 65536;
    proof {
        lemma_abs_mul_le(u3 as int, u2 as int, 254006, 161704);
    }
    let u5: u64 = (u3 * u2) / 65536;
    let a: u64 = u3 / 6;
    let b: u64 = u5 / 120;
    let p: u64 = u - a + b;
    if p > 65536 {
        65536
    } else {
        p
    }
}

/// Sine of a nonnegative raw angle.
fn sin_unsigned(u: u64) -> (s: i64)
    requires
        u <= i64::MAX as u64,
    ensures
        s as int == sin_nonneg_spec(u as int),
        -FX_SCALE <= s <= FX_SCALE,
{
    let p: u64 = u % 411776;
    proof {
        lemma_mod_division_less_than_divisor(u as int, FX_TWO_PI as int);
    }
    if p < 102944 {
        sin_quarter(p) as i64
    } else if p < 205888 {
        sin_quarter(205888 - p) as i64
    } else if p < 308832 {
        -(sin_quarter(p - 205888) as i64)
    } else {
        -(sin_quarter(411776 - p) as i64)
    }
}

/// Fixed-point sine; the result is exactly `sin_spec` of the raw angle and
/// always lies in `[-1.0, 1.0]`.
pub fn sin_fx(x: Fx) -> (r: Fx)
    requires
        x.to_int() > i64::MIN,
    ensures
        r.to_int() == sin_spec(x.to_int()),
        -FX_SCALE <= r.to_int() <= FX_SCALE,
{
    if x.0 >= 0 {
        Fx(sin_unsigned(x.0 as u64))
    } else {
        Fx(-sin_unsigned((-x.0) as u64))
    }
}

/// Fixed-point cosine; `cos_spec` of the raw angle, in `[-1.0, 1.0]`.
pub fn cos_fx(x: Fx) -> (r: Fx)
    requires
        i64::MIN + FX_HALF_PI < x.to_int() <= i64::MAX - FX_HALF_PI,
    ensures
        r.to_int() == cos_spec(x.to_int()),
        -FX_SCALE <= r.to_int() <= FX_SCALE,
{
    sin_fx(Fx(x.0 + 102944))
}

/// The sine value of any angle lies in `[-1.0, 1.0]`.
pub proof fn lemma_sin_range(x: int)
    ensures
        -FX_SCALE <= sin_spec(x) <= FX_SCALE,
{
}

} // verus!
