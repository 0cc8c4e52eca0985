//! The escape-time evaluator.
//!
//! The classic quadratic recurrence `z <- z^2 + c` is iterated in fixed
//! point from a seed `z0`, up to [`MAX_ITER`] bailout checks.  A point
//! escapes at check `i` (1-based) when `zx^2 + zy^2 > 4.0` first holds
//! there; the additive bailout test is the intended one.  The evaluator is a
//! pure, total function of its inputs, so equal inputs always yield equal
//! escape indices.

use vstd::prelude::*;
use vstd::arithmetic::div_mod::{lemma_div_is_ordered, lemma_div_pos_is_pos, lemma_fundamental_div_mod, lemma_fundamental_div_mod_converse, lemma_mod_division_less_than_divisor};
use crate::fixed::{Fx, FX_SCALE, fx_mul_spec, fx_mul_ok, lemma_abs_mul_le, lemma_trunc_div_bound};
use crate::trig::sin_spec;
use crate::trig::sin_fx;

verus! {

/// The fixed iteration budget: how many bailout checks are made.
pub const MAX_ITER: u32 = 64;

/// The bailout threshold `4.0` (escape radius 2, squared), in raw units.
pub const FX_FOUR: i64 = 262144;

/// Largest admitted magnitude of a coordinate handed to the evaluator.
pub const EVAL_LIM: i64 = 0x4000_0000;

/// The real part of one iteration step: `zx^2 - zy^2 + cx`.
pub open spec fn step_x_spec(zx: int, zy: int, cx: int) -> int {
    fx_mul_spec(zx, zx) - fx_mul_spec(zy, zy) + cx
}

/// The imaginary part of one iteration step: `2*zx*zy + cy`.
pub open spec fn step_y_spec(zx: int, zy: int, cy: int) -> int {
    2 * fx_mul_spec(zx, zy) + cy
}

/// The 1-based index of the first bailout check that fails within `fuel`
/// checks, or `None` when the orbit survives them all.
pub open spec fn escape_spec(cx: int, cy: int, zx: int, zy: int, fuel: nat) -> Option<nat>
    decreases fuel,
{
    if fuel == 0 {
        None
    } else if fx_mul_spec(zx, zx) + fx_mul_spec(zy, zy) > FX_FOUR {
        Some(1nat)
    } else {
        match escape_spec(cx, cy, step_x_spec(zx, zy, cx), step_y_spec(zx, zy, cy), (fuel - 1) as nat) {
            Some(i) => Some((i + 1) as nat),
            None => None,
        }
    }
}

/// Shifts an escape index by the number of checks already made.
pub open spec fn shift_escape(o: Option<nat>, k: nat) -> Option<nat> {
    match o {
        Some(i) => Some((i + k) as nat),
        None => None,
    }
}

/// An executable escape result, viewed as the spec-level option.
pub open spec fn view_escape(o: Option<u32>) -> Option<nat> {
    match o {
        Some(i) => Some(i as nat),
        None => None,
    }
}

/// Magnitude bound maintained by the iteration: while the orbit has not
/// escaped, one more step stays within `4.0` plus the seed magnitude limit.
pub open spec fn orbit_bound() -> int {
    FX_FOUR + 2 + EVAL_LIM
}

/// Multiplying two orbit-bounded raw values stays in range for `Fx::mul`,
/// and the product is far from the 64-bit edge.
proof fn lemma_eval_mul_ok(a: int, b: int)
    requires
        -orbit_bound() <= a <= orbit_bound(),
        -orbit_bound() <= b <= orbit_bound(),
    ensures
        fx_mul_ok(a, b),
        -17600777093136 <= fx_mul_spec(a, b) <= 17600777093136,
{
    let ob = orbit_bound();
    assert(ob == 1074003970);
    lemma_abs_mul_le(a, b, ob, ob);
    assert(1074003970int * 1074003970int == 1153484527575760900int) by (nonlinear_arith);
    crate::fixed::lemma_fx_mul_spec_bound(a, b, ob, ob);
    assert(1153484527575760900int / 65536int == 17600777093136int);
}

/// A step taken from a not-yet-escaped state keeps both components within
/// [`orbit_bound`].
proof fn lemma_step_bounded(zx: int, zy: int, cx: int, cy: int)
    requires
        -orbit_bound() <= zx <= orbit_bound(),
        -orbit_bound() <= zy <= orbit_bound(),
        -EVAL_LIM <= cx <= EVAL_LIM,
        -EVAL_LIM <= cy <= EVAL_LIM,
        fx_mul_spec(zx, zx) + fx_mul_spec(zy, zy) <= FX_FOUR,
    ensures
        -orbit_bound() <= step_x_spec(zx, zy, cx) <= orbit_bound(),
        -orbit_bound() <= step_y_spec(zx, zy, cy) <= orbit_bound(),
{
    let s = FX_SCALE as int;
    let x2 = fx_mul_spec(zx, zx);
    let y2 = fx_mul_spec(zy, zy);
    let m = fx_mul_spec(zx, zy);

    // squares are nonnegative in truncating fixed point
    assert(zx * zx >= 0 && zy * zy >= 0) by (nonlinear_arith);
    lemma_div_pos_is_pos(zx * zx, s);
    lemma_div_pos_is_pos(zy * zy, s);
    assert(x2 >= 0 && y2 >= 0);
    assert(-orbit_bound() <= step_x_spec(zx, zy, cx) <= orbit_bound());

    // 2*|zx*zy| <= zx^2 + zy^2, so the doubled cross term obeys the bailout
    assert(2 * (zx * zy) <= zx * zx + zy * zy && -(zx * zx + zy * zy) <= 2 * (zx * zy))
        by (nonlinear_arith);

    // truncation: |m| <= |zx*zy| / s, and (zx^2 + zy^2)/s <= x2 + y2 + 2
    let p = zx * zy;
    lemma_trunc_div_bound(p, s);
    if p >= 0 {
        assert(2 * p <= zx * zx + zy * zy);
        lemma_div_is_ordered(2 * p, zx * zx + zy * zy, s);
        lemma_two_div_le(p, s);
        lemma_div_split_le(zx * zx, zy * zy, s);
        assert(2 * m <= x2 + y2 + 1);
    } else {
        assert(2 * (-p) <= zx * zx + zy * zy);
        lemma_div_is_ordered(2 * (-p), zx * zx + zy * zy, s);
        lemma_two_div_le(-p, s);
        lemma_div_split_le(zx * zx, zy * zy, s);
        assert(-(2 * m) <= x2 + y2 + 1);
    }
    assert(-orbit_bound() <= step_y_spec(zx, zy, cy) <= orbit_bound());
}

/// `2*(p/d) <= (2*p)/d` for nonnegative `p` and positive `d`.
proof fn lemma_two_div_le(p: int, d: int)
    requires
        p >= 0,
        d > 0,
    ensures
        2 * (p / d) <= (2 * p) / d,
{
    lemma_fundamental_div_mod(p, d);
    lemma_mod_division_less_than_divisor(p, d);
    lemma_fundamental_div_mod(2 * p, d);
    lemma_mod_division_less_than_divisor(2 * p, d);
    assert(2 * (p / d) <= (2 * p) / d) by (nonlinear_arith)
        requires
            d > 0,
            p == d * (p / d) + p % d,
            0 <= p % d < d,
            2 * p == d * ((2 * p) / d) + (2 * p) % d,
            0 <= (2 * p) % d < d,
    ;
}

/// `(a + b)/d <= a/d + b/d + 1` for nonnegative `a`, `b` and positive `d`.
proof fn lemma_div_split_le(a: int, b: int, d: int)
    requires
        a >= 0,
        b >= 0,
        d > 0,
    ensures
        (a + b) / d <= a / d + b / d + 1,
{
    lemma_fundamental_div_mod(a, d);
    lemma_mod_division_less_than_divisor(a, d);
    lemma_fundamental_div_mod(b, d);
    lemma_mod_division_less_than_divisor(b, d);
    lemma_fundamental_div_mod(a + b, d);
    lemma_mod_division_less_than_divisor(a + b, d);
    assert((a + b) / d <= a / d + b / d + 1) by (nonlinear_arith)
        requires
            d > 0,
            a == d * (a / d) + a % d,
            0 <= a % d < d,
            b == d * (b / d) + b % d,
            0 <= b % d < d,
            a + b == d * ((a + b) / d) + (a + b) % d,
            0 <= (a + b) % d < d,
    ;
}

/// Runs the escape-time iteration from seed `(z0x, z0y)` with constant
/// `(cx, cy)`; returns the 1-based index of the first failed bailout check,
/// or `None` when the orbit survives all [`MAX_ITER`] checks.
pub fn escape_time(cx: Fx, cy: Fx, z0x: Fx, z0y: Fx) -> (r: Option<u32>)
    requires
        -EVAL_LIM <= cx.to_int() <= EVAL_LIM,
        -EVAL_LIM <= cy.to_int() <= EVAL_LIM,
        -EVAL_LIM <= z0x.to_int() <= EVAL_LIM,
        -EVAL_LIM <= z0y.to_int() <= EVAL_LIM,
    ensures
        view_escape(r) == escape_spec(
            cx.to_int(),
            cy.to_int(),
            z0x.to_int(),
            z0y.to_int(),
            MAX_ITER as nat,
        ),
        match r {
            Some(i) => 1 <= i <= MAX_ITER,
            None => true,
        },
{
    let mut zx = z0x;
    let mut zy = z0y;
    let mut i: u32 = 0;
    loop
        invariant
            0 <= i <= MAX_ITER,
            -orbit_bound() <= zx.to_int() <= orbit_bound(),
            -orbit_bound() <= zy.to_int() <= orbit_bound(),
            -EVAL_LIM <= cx.to_int() <= EVAL_LIM,
            -EVAL_LIM <= cy.to_int() <= EVAL_LIM,
            escape_spec(cx.to_int(), cy.to_int(), z0x.to_int(), z0y.to_int(), MAX_ITER as nat)
                == shift_escape(
                    escape_spec(
                        cx.to_int(),
                        cy.to_int(),
                        zx.to_int(),
                        zy.to_int(),
                        (MAX_ITER - i) as nat,
                    ),
                    i as nat,
                ),
        decreases MAX_ITER - i,
    {
        if i == MAX_ITER {
            return None;
        }
        proof {
            lemma_eval_mul_ok(zx.to_int(), zx.to_int());
            lemma_eval_mul_ok(zy.to_int(), zy.to_int());
            lemma_eval_mul_ok(zx.to_int(), zy.to_int());
        }
        let zx2 = zx.mul(zx);
        let zy2 = zy.mul(zy);
        if zx2.0 + zy2.0 > FX_FOUR {
            return Some(i + 1);
        }
        proof {
            lemma_step_bounded(zx.to_int(), zy.to_int(), cx.to_int(), cy.to_int());
        }
        let m = zx.mul(zy);
        let new_zy = Fx(2 * m.0 + cy.0);
        let new_zx = Fx(zx2.0 - zy2.0 + cx.0);
        zx = new_zx;
        zy = new_zy;
        i = i + 1;
    }
}

/// An opaque RGB color triple.
#[derive(Clone, Copy, Debug, PartialEq, Eq, Structural)]
pub struct Color3 {
    pub r: Fx,
    pub g: Fx,
    pub b: Fx,
}

/// An RGBA color with opacity.
#[derive(Clone, Copy, Debug, PartialEq, Eq, Structural)]
pub struct Color4 {
    pub r: Fx,
    pub g: Fx,
    pub b: Fx,
    pub a: Fx,
}

/// The plane-sample color: red fades with the (1-based) escape index, so
/// `escape at check 1` is full red while a surviving orbit is black.
pub open spec fn mand_color_spec(cx: int, cy: int) -> Color3 {
    match escape_spec(cx, cy, cx, cy, MAX_ITER as nat) {
        Some(i) => Color3 { r: Fx(((65 - i) * 1024) as i64), g: Fx(FX_SCALE), b: Fx(FX_SCALE) },
        None => Color3 { r: Fx(0), g: Fx(0), b: Fx(0) },
    }
}

/// Colors one plane sample: the orbit starts at the sample itself.
pub fn mand(cx: Fx, cy: Fx) -> (col: Color3)
    requires
        -EVAL_LIM <= cx.to_int() <= EVAL_LIM,
        -EVAL_LIM <= cy.to_int() <= EVAL_LIM,
    ensures
        col == mand_color_spec(cx.to_int(), cy.to_int()),
{
    match escape_time(cx, cy, cx, cy) {
        Some(i) => Color3 { r: Fx(((65 - i) as i64) * 1024), g: Fx(65536), b: Fx(65536) },
        None => Color3 { r: Fx(0), g: Fx(0), b: Fx(0) },
    }
}

/// A decorative channel for points that never escape: a sine of the doubled
/// coordinate, shifted and halved into `[0, 1]`.
pub open spec fn inside_channel_spec(w: int) -> int {
    (sin_spec(2 * w) + FX_SCALE) / 2
}

/// The full per-pixel color of the volume evaluator: an escaping point gets
/// a red-and-alpha ramp over its escape index (later escapes are more
/// opaque); a surviving point gets an opaque trigonometric field with no
/// escape-time meaning.
pub open spec fn eval_color_spec(cx: int, cy: int, z0x: int, z0y: int) -> Color4 {
    match escape_spec(cx, cy, z0x, z0y, MAX_ITER as nat) {
        Some(i) => Color4 {
            r: Fx(((65 - i) * 1024) as i64),
            g: Fx(FX_SCALE),
            b: Fx(FX_SCALE),
            a: Fx((i * 1024) as i64),
        },
        None => Color4 {
            r: Fx(inside_channel_spec(cx) as i64),
            g: Fx(inside_channel_spec(cy) as i64),
            b: Fx(inside_channel_spec(z0x + z0y) as i64),
            a: Fx(FX_SCALE),
        },
    }
}

/// Shifts a sine value into the unit range; the decorative inside color.
fn inside_channel(w: Fx) -> (r: Fx)
    requires
        -0x2000_0000_0000_0000 <= w.to_int() <= 0x2000_0000_0000_0000,
    ensures
        r.to_int() == inside_channel_spec(w.to_int()),
        0 <= r.to_int() <= FX_SCALE,
{
    let s = sin_fx(Fx(2 * w.0));
    Fx((((s.0 + 65536) as u64) / 2) as i64)
}

/// Evaluates one rasterized point of a fractal slice: `(cx, cy)` is the
/// interpolated plane coordinate of the quad, `(z0x, z0y)` the slice's
/// fourth-coordinate/depth seed.
pub fn eval_color(cx: Fx, cy: Fx, z0x: Fx, z0y: Fx) -> (col: Color4)
    requires
        -EVAL_LIM <= cx.to_int() <= EVAL_LIM,
        -EVAL_LIM <= cy.to_int() <= EVAL_LIM,
        -EVAL_LIM <= z0x.to_int() <= EVAL_LIM,
        -EVAL_LIM <= z0y.to_int() <= EVAL_LIM,
    ensures
        col == eval_color_spec(cx.to_int(), cy.to_int(), z0x.to_int(), z0y.to_int()),
{
    match escape_time(cx, cy, z0x, z0y) {
        Some(i) => Color4 {
            r: Fx(((65 - i) as i64) * 1024),
            g: Fx(65536),
            b: Fx(65536),
            a: Fx((i as i64) * 1024),
        },
        None => Color4 {
            r: inside_channel(cx),
            g: inside_channel(cy),
            b: inside_channel(z0x.add(z0y)),
            a: Fx(65536),
        },
    }
}

/// Largest admitted raw magnitude of a grid bound.
pub const GRID_LIM: i64 = 0x1000_0000;

/// The signed step between grid columns (or rows): the extent divided by
/// the resolution, truncated toward zero.
pub open spec fn grid_step_spec(lo: int, hi: int, res: int) -> int {
    crate::fixed::trunc_div(hi - lo, res)
}

/// The vertex at offset `r` inside grid row `j` of a triangle-strip plane:
/// a leading edge pair, then for each column a colored pair sampling the
/// escape-time palette at the column's lower-left corner, then a degenerate
/// trailing pair that closes the row's strip.
pub open spec fn grid_vertex_spec(
    x0: int,
    y0: int,
    xs: int,
    ys: int,
    xres: int,
    j: int,
    r: int,
) -> crate::mandelwow::SliceVertex {
    let vy = y0 + j * ys;
    let one = Fx(65536);
    let black = Color3 { r: Fx(0), g: Fx(0), b: Fx(0) };
    if r == 0 {
        crate::mandelwow::SliceVertex {
            position: crate::vec3::Vec3(Fx(x0 as i64), Fx((vy + ys) as i64), one),
            color: black,
        }
    } else if r == 1 {
        crate::mandelwow::SliceVertex {
            position: crate::vec3::Vec3(Fx(x0 as i64), Fx(vy as i64), one),
            color: Color3 { r: Fx(x0 as i64), g: Fx(vy as i64), b: Fx(0) },
        }
    } else if r < 2 + 2 * xres {
        let k = (r - 2) / 2;
        let vx = x0 + k * xs;
        let c = mand_color_spec(vx, vy);
        if (r - 2) % 2 == 0 {
            crate::mandelwow::SliceVertex {
                position: crate::vec3::Vec3(Fx((vx + xs) as i64), Fx((vy + ys) as i64), one),
                color: c,
            }
        } else {
            crate::mandelwow::SliceVertex {
                position: crate::vec3::Vec3(Fx((vx + xs) as i64), Fx(vy as i64), one),
                color: c,
            }
        }
    } else {
        crate::mandelwow::SliceVertex {
            position: crate::vec3::Vec3(Fx((x0 + xres * xs + xs) as i64), Fx(vy as i64), one),
            color: black,
        }
    }
}

/// The vertex at flat index `idx` of the whole grid: rows of stride
/// `2 * xres + 4`.
pub open spec fn grid_vertex_at(
    x0: int,
    y0: int,
    xs: int,
    ys: int,
    xres: int,
    idx: int,
) -> crate::mandelwow::SliceVertex {
    let stride = 2 * xres + 4;
    grid_vertex_spec(x0, y0, xs, ys, xres, idx / stride, idx % stride)
}

/// A grid step and its accumulations stay within twice the coordinate
/// limit.
proof fn lemma_grid_step(diff: int, n: int)
    requires
        1 <= n,
        -2 * 0x1000_0000 <= diff <= 2 * 0x1000_0000,
    ensures
        -2 * 0x1000_0000 <= crate::fixed::trunc_div(diff, n) <= 2 * 0x1000_0000,
        -2 * 0x1000_0000 <= n * crate::fixed::trunc_div(diff, n) <= 2 * 0x1000_0000,
{
    let q = crate::fixed::trunc_div(diff, n);
    lemma_trunc_div_bound(diff, n);
    if diff >= 0 {
        lemma_fundamental_div_mod(diff, n);
        lemma_mod_division_less_than_divisor(diff, n);
        assert(q <= n * q) by (nonlinear_arith)
            requires
                n >= 1,
                q >= 0,
        ;
        assert(0 <= n * q) by (nonlinear_arith)
            requires
                n >= 1,
                q >= 0,
        ;
    } else {
        let m = -diff;
        lemma_fundamental_div_mod(m, n);
        lemma_mod_division_less_than_divisor(m, n);
        let p = m / n;
        assert(q == -p);
        assert(p <= n * p && 0 <= n * p) by (nonlinear_arith)
            requires
                n >= 1,
                p >= 0,
        ;
        assert(n * q == -(n * p)) by (nonlinear_arith)
            requires
                q == -p,
        ;
    }
}

/// A partial accumulation of grid steps is bounded by the total.
proof fn lemma_grid_accum(xs: int, n: int, k: int)
    requires
        1 <= n,
        0 <= k <= n,
        -2 * 0x1000_0000 <= xs <= 2 * 0x1000_0000,
        -2 * 0x1000_0000 <= n * xs <= 2 * 0x1000_0000,
    ensures
        -2 * 0x1000_0000 <= k * xs <= 2 * 0x1000_0000,
{
    assert(-2 * 0x1000_0000 <= k * xs <= 2 * 0x1000_0000) by (nonlinear_arith)
        requires
            1 <= n,
            0 <= k <= n,
            -2 * 0x1000_0000 <= xs <= 2 * 0x1000_0000,
            -2 * 0x1000_0000 <= n * xs <= 2 * 0x1000_0000,
    ;
}

/// Builds one grid row: the strip vertices at row height `vy`.
fn mandel_grid_row(x0: Fx, vy: Fx, xs: Fx, ys: Fx, xres: u32, ghost_y0: Ghost<int>, ghost_j: Ghost<int>) -> (row: Vec<crate::mandelwow::SliceVertex>)
    requires
        1 <= xres <= 1000,
        -GRID_LIM <= x0.to_int() <= GRID_LIM,
        -2 * GRID_LIM <= xs.to_int() <= 2 * GRID_LIM,
        -2 * GRID_LIM <= (xres as int) * xs.to_int() <= 2 * GRID_LIM,
        -2 * GRID_LIM <= ys.to_int() <= 2 * GRID_LIM,
        -3 * GRID_LIM <= vy.to_int() <= 3 * GRID_LIM,
        vy.to_int() == ghost_y0@ + ghost_j@ * ys.to_int(),
    ensures
        row.len() == 2 * xres + 4,
        forall|r: int|
            0 <= r < row.len() ==> (#[trigger] row@[r]) == grid_vertex_spec(
                x0.to_int(),
                ghost_y0@,
                xs.to_int(),
                ys.to_int(),
                xres as int,
                ghost_j@,
                r,
            ),
{
    let ghost x0i = x0.to_int();
    let ghost xsi = xs.to_int();
    let ghost n = xres as int;
    let ghost ysi = ys.to_int();
    let ghost y0 = ghost_y0@;
    let ghost jj = ghost_j@;
    let one = Fx(65536);
    let black = Color3 { r: Fx(0), g: Fx(0), b: Fx(0) };
    let mut row: Vec<crate::mandelwow::SliceVertex> = Vec::new();
    let vy_top = Fx(vy.0 + ys.0);
    let v0 = crate::mandelwow::SliceVertex {
        position: crate::vec3::Vec3(x0, vy_top, one),
        color: black,
    };
    let ghost pre0 = row@;
    row.push(v0);
    proof {
        assert(pre0.push(v0)[0] == v0);
    }
    let v1 = crate::mandelwow::SliceVertex {
        position: crate::vec3::Vec3(x0, vy, one),
        color: Color3 { r: x0, g: vy, b: Fx(0) },
    };
    let ghost pre1 = row@;
    row.push(v1);
    proof {
        assert(pre1.push(v1)[1] == v1);
        assert(pre1.push(v1)[0] == pre1[0]);
    }
    let mut vx = x0;
    let mut k: u32 = 0;
    while k < xres
        invariant
            k <= xres,
            row.len() == 2 + 2 * k,
            1 <= xres <= 1000,
            n == xres as int,
            x0i == x0.to_int(),
            xsi == xs.to_int(),
            ysi == ys.to_int(),
            y0 == ghost_y0@,
            jj == ghost_j@,
            -GRID_LIM <= x0.to_int() <= GRID_LIM,
            -2 * GRID_LIM <= xsi <= 2 * GRID_LIM,
            -2 * GRID_LIM <= n * xsi <= 2 * GRID_LIM,
            -2 * GRID_LIM <= ysi <= 2 * GRID_LIM,
            -3 * GRID_LIM <= vy.to_int() <= 3 * GRID_LIM,
            vy.to_int() == y0 + jj * ysi,
            vy_top.to_int() == vy.to_int() + ysi,
            one == Fx(65536),
            vx.to_int() == x0i + k * xsi,
            forall|r: int|
                0 <= r < row.len() ==> (#[trigger] row@[r]) == grid_vertex_spec(
                    x0i,
                    y0,
                    xsi,
                    ysi,
                    n,
                    jj,
                    r,
                ),
        decreases xres - k,
    {
        proof {
            lemma_grid_accum(xsi, n, k as int);
            lemma_grid_accum(xsi, n, k as int + 1);
            vstd::arithmetic::mul::lemma_mul_is_distributive_add_other_way(xsi, k as int, 1);
            assert(1 * xsi == xsi) by (nonlinear_arith);
        }
        let c = mand(vx, vy);
        let vxn = Fx(vx.0 + xs.0);
        let ca = crate::mandelwow::SliceVertex {
            position: crate::vec3::Vec3(vxn, vy_top, one),
            color: c,
        };
        let ghost prea = row@;
        row.push(ca);
        proof {
            lemma_fundamental_div_mod_converse(2 * (k as int), 2, k as int, 0);
            assert(prea.push(ca)[2 + 2 * (k as int)] == ca);
            assert forall|r: int| 0 <= r < 2 + 2 * (k as int) implies prea.push(ca)[r]
                == prea[r] by {
            }
        }
        let cb = crate::mandelwow::SliceVertex {
            position: crate::vec3::Vec3(vxn, vy, one),
            color: c,
        };
        let ghost preb = row@;
        row.push(cb);
        proof {
            lemma_fundamental_div_mod_converse(2 * (k as int) + 1, 2, k as int, 1);
            assert(preb.push(cb)[3 + 2 * (k as int)] == cb);
            assert forall|r: int| 0 <= r < 3 + 2 * (k as int) implies preb.push(cb)[r]
                == preb[r] by {
            }
        }
        vx = vxn;
        k = k + 1;
    }
    proof {
        lemma_grid_accum(xsi, n, n);
        vstd::arithmetic::mul::lemma_mul_is_distributive_add_other_way(xsi, n, 1);
        assert(1 * xsi == xsi) by (nonlinear_arith);
    }
    let vlast = Fx(vx.0 + xs.0);
    let ta = crate::mandelwow::SliceVertex {
        position: crate::vec3::Vec3(vlast, vy, one),
        color: black,
    };
    let ghost pret = row@;
    row.push(ta);
    proof {
        assert(pret.push(ta)[2 + 2 * n] == ta);
        assert forall|r: int| 0 <= r < 2 + 2 * n implies pret.push(ta)[r] == pret[r] by {
        }
    }
    let tb = crate::mandelwow::SliceVertex {
        position: crate::vec3::Vec3(vlast, vy, one),
        color: black,
    };
    let ghost pret2 = row@;
    row.push(tb);
    proof {
        assert(pret2.push(tb)[3 + 2 * n] == tb);
        assert forall|r: int| 0 <= r < 3 + 2 * n implies pret2.push(tb)[r] == pret2[r] by {
        }
    }
    row
}

/// Builds the full plane grid the 2-D escape-time program draws: `yres`
/// strip rows over the rectangle, each vertex carrying the palette sample
/// of its column.  The plane program tessellates finely because its palette
/// is computed per vertex; the volume slicer needs only one quad per slice
/// because its palette is computed per pixel.
pub fn mandel_grid(xmin: Fx, xmax: Fx, ymin: Fx, ymax: Fx, xres: u32, yres: u32) -> (v: Vec<
    crate::mandelwow::SliceVertex,
>)
    requires
        1 <= xres <= 1000,
        1 <= yres <= 1000,
        -GRID_LIM <= xmin.to_int() <= GRID_LIM,
        -GRID_LIM <= xmax.to_int() <= GRID_LIM,
        -GRID_LIM <= ymin.to_int() <= GRID_LIM,
        -GRID_LIM <= ymax.to_int() <= GRID_LIM,
    ensures
        v.len() == (2 * xres + 4) * yres,
        forall|idx: int|
            0 <= idx < v.len() ==> (#[trigger] v@[idx]) == grid_vertex_at(
                xmin.to_int(),
                ymin.to_int(),
                grid_step_spec(xmin.to_int(), xmax.to_int(), xres as int),
                grid_step_spec(ymin.to_int(), ymax.to_int(), yres as int),
                xres as int,
                idx,
            ),
{
    let xdiff = Fx(xmax.0 - xmin.0);
    let ydiff = Fx(ymax.0 - ymin.0);
    let xs: Fx = if xdiff.0 >= 0 {
        Fx(((xdiff.0 as u64) / (xres as u64)) as i64)
    } else {
        Fx(-((((-xdiff.0) as u64) / (xres as u64)) as i64))
    };
    let ys: Fx = if ydiff.0 >= 0 {
        Fx(((ydiff.0 as u64) / (yres as u64)) as i64)
    } else {
        Fx(-((((-ydiff.0) as u64) / (yres as u64)) as i64))
    };
    let ghost xsi = xs.to_int();
    let ghost ysi = ys.to_int();
    let ghost nx = xres as int;
    let ghost ny = yres as int;
    proof {
        lemma_grid_step(xdiff.to_int(), nx);
        lemma_grid_step(ydiff.to_int(), ny);
        assert(xsi == grid_step_spec(xmin.to_int(), xmax.to_int(), nx));
        assert(ysi == grid_step_spec(ymin.to_int(), ymax.to_int(), ny));
    }
    let stride: u32 = 2 * xres + 4;
    let mut v: Vec<crate::mandelwow::SliceVertex> = Vec::new();
    let mut vy = ymin;
    let mut j: u32 = 0;
    while j < yres
        invariant
            j <= yres,
            v.len() == j * (2 * xres + 4),
            1 <= xres <= 1000,
            1 <= yres <= 1000,
            stride == 2 * xres + 4,
            nx == xres as int,
            ny == yres as int,
            xsi == xs.to_int(),
            ysi == ys.to_int(),
            -GRID_LIM <= xmin.to_int() <= GRID_LIM,
            -GRID_LIM <= ymin.to_int() <= GRID_LIM,
            -2 * GRID_LIM <= xsi <= 2 * GRID_LIM,
            -2 * GRID_LIM <= nx * xsi <= 2 * GRID_LIM,
            -2 * GRID_LIM <= ysi <= 2 * GRID_LIM,
            -2 * GRID_LIM <= ny * ysi <= 2 * GRID_LIM,
            vy.to_int() == ymin.to_int() + j * ysi,
            -3 * GRID_LIM <= vy.to_int() <= 3 * GRID_LIM,
            forall|idx: int|
                0 <= idx < v.len() ==> (#[trigger] v@[idx]) == grid_vertex_at(
                    xmin.to_int(),
                    ymin.to_int(),
                    xsi,
                    ysi,
                    nx,
                    idx,
                ),
        decreases yres - j,
    {
        let ghost old_len = v.len() as int;
        let mut row = mandel_grid_row(xmin, vy, xs, ys, xres, Ghost(ymin.to_int()), Ghost(j as int));
        let ghost row_snap = row@;
        v.append(&mut row);
        proof {
            assert forall|idx: int| old_len <= idx < v.len() implies (#[trigger] v@[idx])
                == grid_vertex_at(xmin.to_int(), ymin.to_int(), xsi, ysi, nx, idx) by {
                let r = idx - old_len;
                assert(v@[idx] == row_snap[r]);
                lemma_fundamental_div_mod_converse(idx, 2 * nx + 4, j as int, r);
            }
            lemma_grid_accum(ysi, ny, j as int + 1);
            vstd::arithmetic::mul::lemma_mul_is_distributive_add_other_way(ysi, j as int, 1);
            assert(1 * ysi == ysi) by (nonlinear_arith);
            vstd::arithmetic::mul::lemma_mul_is_distributive_add_other_way(
                2 * nx + 4,
                j as int,
                1,
            );
            assert(1 * (2 * nx + 4) == 2 * nx + 4) by (nonlinear_arith);
        }
        vy = Fx(vy.0 + ys.0);
        j = j + 1;
    }
    proof {
        assert(v.len() == ny * (2 * nx + 4));
        assert(ny * (2 * nx + 4) == (2 * nx + 4) * ny) by (nonlinear_arith);
    }
    v
}

} // verus!
