//! The per-frame animation model: the fourth-coordinate sweep, the
//! beat-synchronized scale pulse, and the time-driven model transform.

use vstd::prelude::*;
use vstd::arithmetic::div_mod::{
    lemma_div_is_ordered,
    lemma_div_pos_is_pos,
    lemma_basic_div,
};
use crate::fixed::{
    Fx, FX_SCALE, fx_mul_spec, fx_div_spec, fx_mul_ok, trunc_div, lemma_abs_mul_le,
    lemma_fx_mul_spec_bound, lemma_trunc_div_bound,
};
use crate::trig::{sin_spec, sin_fx};
use crate::timer::T_LIM;
use crate::vec3::Vec3;
use crate::mat4::{
    Mat4, mat_mul, mat_mul_spec, rot_x, rot_y, rot_z, rot_x_spec, rot_y_spec, rot_z_spec,
    from_translation, from_translation_spec, from_uniform_scale, from_uniform_scale_spec,
    lemma_mat_mul_bound, MAT_LIM,
};

verus! {

/// Lower end of the fourth-coordinate sweep (about -0.8).
pub const WOW_MIN: i64 = -52429;

/// Upper end of the fourth-coordinate sweep (about 0.8).
pub const WOW_MAX: i64 = 52429;

/// Width of the sweep range.
pub const WOW_SIZE: i64 = 104858;

/// Angular rate of the sweep (about 0.7 radians per second).
pub const WOW_RATE: i64 = 45875;

/// Sharpness of the beat pulse decay (15.0).
pub const HIT_SHARPNESS: i64 = 983040;

/// How far the model is pushed away from the viewer (-3.0).
pub const Z_TRANS: i64 = -196608;

/// Audio samples per second of the playback clock.
pub const SAMPLE_RATE: i64 = 48000;

/// The fourth coordinate at simulation time `t`: a sine of `0.7 t`, shifted
/// and scaled into the sweep range.
pub open spec fn wow_spec(t: int) -> int {
    let s = sin_spec(fx_mul_spec(t, WOW_RATE as int));
    WOW_MIN + fx_mul_spec((s + FX_SCALE) / 2, WOW_SIZE as int)
}

/// The sweep never leaves `[WOW_MIN, WOW_MAX]`, whatever the time.
pub proof fn lemma_wow_range(t: int)
    ensures
        WOW_MIN <= wow_spec(t) <= WOW_MAX,
{
    let s = sin_spec(fx_mul_spec(t, WOW_RATE as int));
    crate::trig::lemma_sin_range(fx_mul_spec(t, WOW_RATE as int));
    let h = (s + FX_SCALE) / 2;
    assert(0 <= h <= 65536);
    lemma_fx_mul_spec_bound(h, WOW_SIZE as int, 65536, WOW_SIZE as int);
    assert(65536int * 104858int == 6871973888int) by (nonlinear_arith);
    assert(6871973888int / 65536int == 104858int);
    let m = fx_mul_spec(h, WOW_SIZE as int);
    assert(-104858 <= m <= 104858);
    // the product of nonnegative factors is nonnegative
    vstd::arithmetic::mul::lemma_mul_nonnegative(h, WOW_SIZE as int);
    lemma_trunc_div_bound(h * (WOW_SIZE as int), FX_SCALE as int);
    assert(0 <= m);
}

/// Computes the fourth coordinate for the current frame.
pub fn wow(t: Fx) -> (r: Fx)
    requires
        -T_LIM <= t.to_int() <= T_LIM,
    ensures
        r.to_int() == wow_spec(t.to_int()),
        WOW_MIN <= r.to_int() <= WOW_MAX,
{
    proof {
        lemma_abs_mul_le(t.to_int(), WOW_RATE as int, T_LIM as int, WOW_RATE as int);
        assert(0x4000_0000_0000int * 45875int == 3228166139150336000int) by (nonlinear_arith);
        lemma_fx_mul_spec_bound(t.to_int(), WOW_RATE as int, T_LIM as int, WOW_RATE as int);
        lemma_wow_range(t.to_int());
    }
    let a = t.mul(Fx(WOW_RATE));
    let s = sin_fx(a);
    let h = Fx((((s.0 + 65536) as u64) / 2) as i64);
    proof {
        lemma_abs_mul_le(h.to_int(), WOW_SIZE as int, 65536, WOW_SIZE as int);
        assert(65536int * 104858int == 6871973888int) by (nonlinear_arith);
    }
    let m = h.mul(Fx(WOW_SIZE));
    Fx(WOW_MIN + m.0)
}

/// The beat-pulse scale at time `t` after a hit at `hit_time`: the decaying
/// bump `1/(1 + 15 dt^2) + 1`, which peaks at 2.0 on the hit and settles
/// toward 1.0.
pub open spec fn hit_scale_spec(t: int, hit_time: int) -> int {
    let d = t - hit_time;
    let d2 = fx_mul_spec(d, d);
    let den = FX_SCALE + fx_mul_spec(d2, HIT_SHARPNESS as int);
    fx_div_spec(FX_SCALE as int, den) + FX_SCALE
}

/// The pulse is bounded: it always lies in `[1.0, 2.0]`.
pub proof fn lemma_hit_scale_range(t: int, hit_time: int)
    ensures
        FX_SCALE <= hit_scale_spec(t, hit_time) <= 2 * FX_SCALE,
{
    let d = t - hit_time;
    let d2 = fx_mul_spec(d, d);
    assert(d * d >= 0) by (nonlinear_arith);
    lemma_trunc_div_bound(d * d, FX_SCALE as int);
    assert(0 <= d2);
    vstd::arithmetic::mul::lemma_mul_nonnegative(d2, HIT_SHARPNESS as int);
    lemma_trunc_div_bound(d2 * (HIT_SHARPNESS as int), FX_SCALE as int);
    let den = FX_SCALE + fx_mul_spec(d2, HIT_SHARPNESS as int);
    assert(den >= 65536);
    let n = 65536int * 65536;
    lemma_div_pos_is_pos(n, den);
    lemma_div_is_ordered(n, n, 65536);
    // quotient shrinks as the denominator grows
    vstd::arithmetic::div_mod::lemma_div_is_ordered_by_denominator(n, 65536, den);
    assert(0x1_0000_0000int / 65536int == 65536int);
    assert(fx_div_spec(FX_SCALE as int, den) == n / den);
}

/// Computes the beat-pulse scale for the current frame.
pub fn hit_scale(t: Fx, hit_time: Fx) -> (r: Fx)
    requires
        -T_LIM <= t.to_int() <= T_LIM,
        -T_LIM <= hit_time.to_int() <= T_LIM,
    ensures
        r.to_int() == hit_scale_spec(t.to_int(), hit_time.to_int()),
        FX_SCALE <= r.to_int() <= 2 * FX_SCALE,
{
    proof {
        lemma_hit_scale_range(t.to_int(), hit_time.to_int());
    }
    let d = t.sub(hit_time);
    if d.0 > 0x100_0000 || d.0 < -0x100_0000 {
        proof {
            lemma_far_hit_pins_scale(t.to_int(), hit_time.to_int());
        }
        Fx(65536)
    } else {
        proof {
            lemma_abs_mul_le(d.to_int(), d.to_int(), 0x100_0000, 0x100_0000);
            assert(0x100_0000int * 0x100_0000int == 0x1_0000_0000_0000int) by (nonlinear_arith);
            lemma_fx_mul_spec_bound(d.to_int(), d.to_int(), 0x100_0000, 0x100_0000);
            assert(0x1_0000_0000_0000int / 65536int == 0x1_0000_0000int);
        }
        let d2 = d.mul(d);
        proof {
            assert(d.to_int() * d.to_int() >= 0) by (nonlinear_arith);
            lemma_trunc_div_bound(d.to_int() * d.to_int(), FX_SCALE as int);
            lemma_abs_mul_le(d2.to_int(), HIT_SHARPNESS as int, 0x1_0000_0000, HIT_SHARPNESS as int);
            assert(0x1_0000_0000int * 983040int == 4222124650659840int) by (nonlinear_arith);
            lemma_fx_mul_spec_bound(d2.to_int(), HIT_SHARPNESS as int, 0x1_0000_0000, HIT_SHARPNESS as int);
            assert(4222124650659840int / 65536int == 64424509440int);
            vstd::arithmetic::mul::lemma_mul_nonnegative(d2.to_int(), HIT_SHARPNESS as int);
            lemma_trunc_div_bound(d2.to_int() * (HIT_SHARPNESS as int), FX_SCALE as int);
        }
        let m = d2.mul(Fx(HIT_SHARPNESS));
        let den = Fx(65536 + m.0);
        let q = Fx(65536).div(den);
        proof {
            lemma_hit_scale_range(t.to_int(), hit_time.to_int());
        }
        Fx(q.0 + 65536)
    }
}

/// Far from the last hit, the formula's quotient vanishes and the scale is
/// exactly 1.0 plus 1.0 times nothing: the pulse has fully decayed.
proof fn lemma_far_hit_pins_scale(t: int, hit_time: int)
    requires
        t - hit_time > 0x100_0000 || t - hit_time < -0x100_0000,
    ensures
        hit_scale_spec(t, hit_time) == FX_SCALE,
{
    let d = t - hit_time;
    let d2 = fx_mul_spec(d, d);
    assert(d * d >= 0x1_0000_0000_0000) by (nonlinear_arith)
        requires
            d > 0x100_0000 || d < -0x100_0000,
    ;
    lemma_div_is_ordered(0x1_0000_0000_0000, d * d, 65536);
    assert(0x1_0000_0000_0000int / 65536int == 0x1_0000_0000int);
    assert(d2 >= 0x1_0000_0000);
    vstd::arithmetic::mul::lemma_mul_inequality(0x1_0000_0000, d2, HIT_SHARPNESS as int);
    assert(0x1_0000_0000int * 983040int == 4222124650659840int) by (nonlinear_arith);
    lemma_div_is_ordered(4222124650659840, d2 * (HIT_SHARPNESS as int), 65536);
    assert(4222124650659840int / 65536int == 64424509440int);
    let den = FX_SCALE + fx_mul_spec(d2, HIT_SHARPNESS as int);
    assert(den >= 64424509440 + 65536);
    let n = 65536int * 65536;
    assert(n < den);
    lemma_basic_div(n, den);
    assert(fx_div_spec(FX_SCALE as int, den) == n / den);
}

/// The beat-hit tracker: when the audio collaborator reports a trigger
/// newer than the last one seen, the hit time snaps to the current
/// simulation time.
#[derive(Clone, Copy, Debug, PartialEq, Eq, Structural)]
pub struct HitState {
    pub hit_time: Fx,
    pub last_hit: Fx,
}

impl HitState {
    /// No hit seen yet.
    pub fn new() -> (h: HitState)
        ensures
            h.hit_time.to_int() == 0,
            h.last_hit.to_int() == 0,
    {
        HitState { hit_time: Fx(0), last_hit: Fx(0) }
    }

    /// Folds in the most recent trigger timestamp read from the audio
    /// collaborator.
    pub fn note(&mut self, new_hit: Fx, t: Fx)
        ensures
            new_hit.to_int() > old(self).last_hit.to_int() ==> *final(self) == (HitState {
                hit_time: t,
                last_hit: new_hit,
            }),
            new_hit.to_int() <= old(self).last_hit.to_int() ==> *final(self) == (HitState {
                hit_time: old(self).hit_time,
                last_hit: new_hit,
            }),
    {
        if new_hit.0 > self.last_hit.0 {
            self.hit_time = t;
        }
        self.last_hit = new_hit;
    }
}

/// The playback time of an audio sample count, in fixed-point seconds.
pub fn trigger_time_of_samples(n_samples: u64) -> (r: Fx)
    requires
        n_samples <= 0x2000_0000_0000,
    ensures
        r.to_int() == ((n_samples as int) * 65536) / (SAMPLE_RATE as int),
        0 <= r.to_int() <= T_LIM,
{
    let raw: u64 = (n_samples * 65536) / 48000;
    proof {
        lemma_div_is_ordered((n_samples as int) * 65536, 0x2000_0000_0000int * 65536, 48000);
        assert(0x2000_0000_0000int * 65536int == 2305843009213693952int) by (nonlinear_arith);
        assert(2305843009213693952int / 48000int == 48038396025285int);
        lemma_div_pos_is_pos((n_samples as int) * 65536, 48000);
    }
    Fx(raw as i64)
}

/// The rotation of the model at time `t`: small rotations about x and y by
/// thirds and halves of `sin(t)`, and about z by `t / 1.5`, applied in
/// z-then-y-then-x order.
pub open spec fn rotation_spec(t: int) -> Mat4 {
    let s = sin_spec(t);
    let ax = fx_div_spec(s, 196608);
    let ay = fx_div_spec(s, 131072);
    let az = fx_div_spec(t, 98304);
    mat_mul_spec(
        rot_x_spec(Fx(sin_spec(ax) as i64), Fx(crate::trig::cos_spec(ax) as i64)),
        mat_mul_spec(
            rot_y_spec(Fx(sin_spec(ay) as i64), Fx(crate::trig::cos_spec(ay) as i64)),
            rot_z_spec(Fx(sin_spec(az) as i64), Fx(crate::trig::cos_spec(az) as i64)),
        ),
    )
}

/// The whole model transform of the fractal slab: push it `Z_TRANS` into
/// view, rotate it, and scale it by the beat pulse.
pub open spec fn model_spec(t: int, hs: Fx) -> Mat4 {
    mat_mul_spec(
        mat_mul_spec(
            from_translation_spec(Vec3(Fx(0), Fx(0), Fx(Z_TRANS))),
            rotation_spec(t),
        ),
        from_uniform_scale_spec(hs),
    )
}

/// Builds the model transform for the current frame.
pub fn model_transform(t: Fx, hs: Fx) -> (r: Mat4)
    requires
        -T_LIM <= t.to_int() <= T_LIM,
        FX_SCALE <= hs.to_int() <= 2 * FX_SCALE,
    ensures
        r == model_spec(t.to_int(), hs),
        r.bounded(0x1000_0000int),
{
    let s = sin_fx(t);
    let ax = s.div(Fx(196608));
    let ay = s.div(Fx(131072));
    let az = t.div(Fx(98304));
    let rx = rot_x(ax);
    let ry = rot_y(ay);
    let rz = rot_z(az);
    proof {
        lemma_mat_mul_bound(rot_y_spec(Fx(sin_spec(ay.to_int()) as i64), Fx(crate::trig::cos_spec(ay.to_int()) as i64)),
            rot_z_spec(Fx(sin_spec(az.to_int()) as i64), Fx(crate::trig::cos_spec(az.to_int()) as i64)),
            65536, 65536);
        assert(65536int * 65536int == 0x1_0000_0000int) by (nonlinear_arith);
        assert(0x1_0000_0000int / 65536int == 65536int);
    }
    let ryz = mat_mul(&ry, &rz);
    proof {
        lemma_mat_mul_bound(rot_x_spec(Fx(sin_spec(ax.to_int()) as i64), Fx(crate::trig::cos_spec(ax.to_int()) as i64)),
            mat_mul_spec(rot_y_spec(Fx(sin_spec(ay.to_int()) as i64), Fx(crate::trig::cos_spec(ay.to_int()) as i64)),
                rot_z_spec(Fx(sin_spec(az.to_int()) as i64), Fx(crate::trig::cos_spec(az.to_int()) as i64))),
            65536, 262144);
        assert(65536int * 262144int == 0x4_0000_0000int) by (nonlinear_arith);
        assert(0x4_0000_0000int / 65536int == 262144int);
    }
    let rot = mat_mul(&rx, &ryz);
    let tr = from_translation(Vec3(Fx(0), Fx(0), Fx(Z_TRANS)));
    proof {
        lemma_mat_mul_bound(from_translation_spec(Vec3(Fx(0), Fx(0), Fx(Z_TRANS))),
            rotation_spec(t.to_int()), 196608, 1048576);
        assert(196608int * 1048576int == 206158430208int) by (nonlinear_arith);
        assert(206158430208int / 65536int == 3145728int);
    }
    let trot = mat_mul(&tr, &rot);
    let sc = from_uniform_scale(hs);
    proof {
        lemma_mat_mul_bound(mat_mul_spec(from_translation_spec(Vec3(Fx(0), Fx(0), Fx(Z_TRANS))),
            rotation_spec(t.to_int())), from_uniform_scale_spec(hs), 12582912, 131072);
        assert(12582912int * 131072int == 1649267441664int) by (nonlinear_arith);
        assert(1649267441664int / 65536int == 25165824int);
    }
    mat_mul(&trot, &sc)
}

/// Grid extent of the decorative sea of cubes.
pub const SEA_XSIZE: u32 = 40;

/// Grid depth of the decorative sea of cubes.
pub const SEA_ZSIZE: u32 = 25;

/// One cube of the decorative sea: its translated position (wave height
/// included), its water color, and the character billboarded above it.
#[derive(Clone, Copy, Debug, PartialEq, Eq, Structural)]
pub struct SeaCell {
    pub pos: Vec3,
    pub color: crate::mandel::Color3,
    pub ch: u8,
}

/// The resting position of sea cube `(x, z)`: one unit apart on both axes,
/// spanning x in `[-20, 20)` and z in `(-27, -2]`, at height `-2.5`.
pub open spec fn sea_base_spec(x: int, z: int) -> Vec3 {
    Vec3(Fx((-1310720 + x * 65536) as i64), Fx(-163840int as i64), Fx((-131072 - z * 65536) as i64))
}

/// The wave height over cube `(x, z)` at time `t`: two traveling sines
/// scaled by 0.3.
pub open spec fn sea_wave_spec(x: int, z: int, t: int) -> int {
    let a1 = x * 25736 + 2 * t;
    let a2 = (z * 617664) / 25 + 3 * t;
    fx_mul_spec(sin_spec(a1) + sin_spec(a2), 19661)
}

/// The water color for a wave height: a blue-green mix driven by the
/// height.
pub open spec fn sea_color_spec(w: int) -> crate::mandel::Color3 {
    crate::mandel::Color3 {
        r: Fx(0),
        g: Fx((vstd::math::abs(65536 - w) as int / 2) as i64),
        b: Fx(vstd::math::abs(w) as i64),
    }
}

/// One sea cube, fully described.
pub open spec fn sea_cell_spec(x: int, z: int, t: int) -> SeaCell {
    let w = sea_wave_spec(x, z, t);
    let base = sea_base_spec(x, z);
    SeaCell {
        pos: Vec3(base.0, Fx((base.1.to_int() + w) as i64), base.2),
        color: sea_color_spec(w),
        ch: (((x + 40 * z) % 256) as u8),
    }
}

/// The wave height for one sea cube.
fn sea_wave(x: u32, z: u32, t: Fx) -> (w: Fx)
    requires
        x < SEA_XSIZE,
        z < SEA_ZSIZE,
        -T_LIM <= t.to_int() <= T_LIM,
    ensures
        w.to_int() == sea_wave_spec(x as int, z as int, t.to_int()),
        -39322 <= w.to_int() <= 39322,
{
    let a1 = Fx((x as i64) * 25736 + 2 * t.0);
    let a2 = Fx((((z as u64) * 617664 / 25) as i64) + 3 * t.0);
    let s1 = sin_fx(a1);
    let s2 = sin_fx(a2);
    let sum = Fx(s1.0 + s2.0);
    proof {
        lemma_abs_mul_le(sum.to_int(), 19661, 131072, 19661);
        assert(131072int * 19661int == 2577006592int) by (nonlinear_arith);
        lemma_fx_mul_spec_bound(sum.to_int(), 19661, 131072, 19661);
        assert(2577006592int / 65536int == 39322int);
    }
    sum.mul(Fx(19661))
}

/// Builds the sea of cubes for the current frame, row by row: cell
/// `x * 25 + z` is the cube at grid `(x, z)`.
pub fn sea_cells(t: Fx) -> (cells: Vec<SeaCell>)
    requires
        -T_LIM <= t.to_int() <= T_LIM,
    ensures
        cells.len() == 1000,
        forall|i: int|
            0 <= i < 1000 ==> (#[trigger] cells@[i]) == sea_cell_spec(i / 25, i % 25, t.to_int()),
{
    let mut cells: Vec<SeaCell> = Vec::new();
    let mut i: u32 = 0;
    while i < 1000
        invariant
            i <= 1000,
            cells.len() == i,
            -T_LIM <= t.to_int() <= T_LIM,
            forall|j: int|
                0 <= j < i ==> (#[trigger] cells@[j]) == sea_cell_spec(j / 25, j % 25, t.to_int()),
        decreases 1000 - i,
    {
        let x = i / 25;
        let z = i % 25;
        let w = sea_wave(x, z, t);
        let gv = Fx(65536 - w.0).abs();
        let g = Fx(((gv.0 as u64) / 2) as i64);
        let b = w.abs();
        let cell = SeaCell {
            pos: Vec3(
                Fx(-1310720 + (x as i64) * 65536),
                Fx(-163840 + w.0),
                Fx(-131072 - (z as i64) * 65536),
            ),
            color: crate::mandel::Color3 { r: Fx(0), g, b },
            ch: ((x + 40 * z) % 256) as u8,
        };
        cells.push(cell);
        i = i + 1;
    }
    cells
}

/// The bounds the demo evaluates the fractal slab over.
pub fn mandelwow_bounds() -> (c: crate::cube::Cube)
    ensures
        c.xmin.to_int() == -131072 && c.xmax.to_int() == 45875,
        c.ymin.to_int() == -65536 && c.ymax.to_int() == 65536,
        c.zmin.to_int() == -72090 && c.zmax.to_int() == 72090,
        c.wf(),
        c.bounded(crate::mandelwow::SLICE_LIM as int),
{
    crate::cube::Cube {
        xmin: Fx(-131072),
        xmax: Fx(45875),
        ymin: Fx(-65536),
        ymax: Fx(65536),
        zmin: Fx(-72090),
        zmax: Fx(72090),
    }
}

/// Everything one frame needs, computed up front: the animation scalars,
/// the shared transforms, the fractal slice stack and the sea.  The host
/// draws these in the fixed order the blending requires: bounding box
/// first (against a clear depth buffer), then the sea cubes and their
/// billboards, then the translucent fractal slices in slice order.
pub struct FrameScene {
    pub wow: Fx,
    pub hit_scale: Fx,
    pub model: crate::mat4::Mat4,
    pub view: crate::mat4::Mat4,
    pub perspective: crate::mat4::Mat4,
    pub perspview: crate::mat4::Mat4,
    pub slices: Vec<crate::mandelwow::Slice>,
    pub sea: Vec<SeaCell>,
}

/// Composes one frame from the camera pose, the clock, the last beat hit
/// and the bounds: all scalars, matrices and geometry below are exact
/// functions of those inputs.
pub fn compose_frame(
    camera: &crate::camera::CameraState,
    t: Fx,
    hit_time: Fx,
    bounds: &crate::cube::Cube,
    zres: u32,
) -> (fs: FrameScene)
    requires
        camera.wf(),
        -T_LIM <= t.to_int() <= T_LIM,
        -T_LIM <= hit_time.to_int() <= T_LIM,
        1 <= zres <= 100000,
        bounds.bounded(crate::mandelwow::SLICE_LIM as int),
    ensures
        fs.wow.to_int() == wow_spec(t.to_int()),
        WOW_MIN <= fs.wow.to_int() <= WOW_MAX,
        fs.hit_scale.to_int() == hit_scale_spec(t.to_int(), hit_time.to_int()),
        FX_SCALE <= fs.hit_scale.to_int() <= 2 * FX_SCALE,
        fs.model == model_spec(t.to_int(), fs.hit_scale),
        fs.view == crate::camera::view_mat_spec(camera.pos, camera.dir),
        fs.perspective == crate::camera::persp_mat_spec(camera.aspect),
        fs.perspview == mat_mul_spec(
            crate::camera::persp_mat_spec(camera.aspect),
            crate::camera::view_mat_spec(camera.pos, camera.dir),
        ),
        fs.slices.len() == zres + 1,
        forall|i: int|
            0 <= i <= zres ==> (#[trigger] fs.slices@[i]).z.to_int() == crate::mandelwow::slice_z_spec(
                *bounds,
                zres as int,
                i,
            ),
        forall|i: int| 0 <= i <= zres ==> (#[trigger] fs.slices@[i]).wow == fs.wow,
        forall|i: int|
            0 <= i <= zres ==> (#[trigger] fs.slices@[i]).vertices@ == crate::mandelwow::slice_quad_spec(
                *bounds,
                fs.slices@[i].z,
            ),
        bounds.wf() ==> bounds.zmax.to_int() - zres <= fs.slices@[zres as int].z.to_int()
            <= bounds.zmax.to_int(),
        fs.sea.len() == 1000,
        forall|i: int|
            0 <= i < 1000 ==> (#[trigger] fs.sea@[i]) == sea_cell_spec(i / 25, i % 25, t.to_int()),
{
    let w = wow(t);
    let hs = hit_scale(t, hit_time);
    let model = model_transform(t, hs);
    let view = camera.get_view_mat();
    let perspective = camera.get_persp_mat();
    let perspview = camera.get_perspview();
    let slices = crate::mandelwow::slice_stack(bounds, w, zres);
    let sea = sea_cells(t);
    FrameScene { wow: w, hit_scale: hs, model, view, perspective, perspview, slices, sea }
}

} // verus!
