//! The free-fly camera.
//!
//! The camera holds a position, a view direction, an aspect ratio, and ten
//! boolean movement/turn intents fed by input events.  `update` integrates
//! the intents once per frame: it renormalizes the direction, moves along
//! the derived basis at fixed speeds, and turns by small angles accumulated
//! from mouse and key deltas.  The matrix getters are pure derivations of
//! the current state, so repeated calls between updates return identical
//! matrices.
//!
//! Conventions fixed here: strafe up moves
//! along the derived up vector (`+u`), strafe right along the side vector
//! (`+s`), and the pan accumulators saturate instead of wrapping.  The
//! flying volume is clamped to `POS_LIM` raw units per axis, and a turn
//! that would leave the direction without a usable horizontal component
//! (exactly parallel to world-up, where the side basis degenerates) is
//! discarded, keeping the previous direction.

use vstd::prelude::*;
use vstd::arithmetic::div_mod::{lemma_div_is_ordered, lemma_div_by_self};
use crate::fixed::{
    Fx, FX_SCALE, fx_mul_spec, fx_div_spec, fx_mul_ok, lemma_abs_mul_le, lemma_fx_mul_spec_bound,
    lemma_fx_mul_one, is_isqrt, lemma_isqrt_exists,
};
use crate::vec3::{Vec3, cross_spec, len2_raw_spec, len_raw_spec, norm_comp_spec, norm};
use crate::mat4::{Mat4, Vec4, mat_mul, mat_mul_spec};

verus! {

/// Largest raw coordinate of the camera position (the flying volume).
pub const POS_LIM: i64 = 0x1_0000_0000;

/// Largest raw component of a stored view direction.
pub const DIR_LIM: i64 = 0x10_0000;

/// Saturation limit of the accumulated pan deltas.
pub const REL_LIM: i32 = 0x10_0000;

/// Forward/backward speed per frame (raw units; about 0.01).
pub const WALK_SPEED: i64 = 655;

/// Strafe speed per frame (raw units; about 0.02).
pub const STRAFE_SPEED: i64 = 1311;

/// Pan angle per accumulated delta unit (raw angle units; about 0.001).
pub const PAN_SPEED: i64 = 66;

/// The far plane distance (1024.0, raw).
pub const ZFAR_RAW: i64 = 67108864;

/// The near plane distance (about 0.1, raw).
pub const ZNEAR_RAW: i64 = 6554;

/// The keys the camera reacts to.
#[derive(Clone, Copy, Debug, PartialEq, Eq, Structural)]
pub enum Key {
    Up,
    Down,
    Left,
    Right,
    A,
    D,
    W,
    S,
    R,
    F,
}

/// An input event, as the camera consumes it.
#[derive(Clone, Copy, Debug, PartialEq, Eq, Structural)]
pub enum InputEvent {
    MouseMoved(i32, i32),
    KeyPressed(Key),
    KeyReleased(Key),
}

/// The camera state: pose, aspect ratio, movement intents and pan
/// accumulators.  Input events and the per-frame update mutate it; the
/// matrix getters only read it.
#[derive(Clone, Copy, Debug, PartialEq, Eq, Structural)]
pub struct CameraState {
    pub aspect: Fx,
    pub pos: Vec3,
    pub dir: Vec3,
    pub moving_up: bool,
    pub moving_left: bool,
    pub moving_down: bool,
    pub moving_right: bool,
    pub moving_forward: bool,
    pub moving_backward: bool,
    pub turning_up: bool,
    pub turning_left: bool,
    pub turning_down: bool,
    pub turning_right: bool,
    pub mouse_x: i32,
    pub mouse_y: i32,
    pub rel_x: i32,
    pub rel_y: i32,
}

/// The direction has positive length and a horizontal component large
/// enough that normalizing cannot flatten it to zero: the squared x or z
/// component, scaled up, still reaches the squared length.  This is the
/// "never exactly parallel to world-up" invariant, quantified.
pub open spec fn dir_ok_spec(d: Vec3) -> bool {
    let l2 = len2_raw_spec(d);
    &&& l2 > 0
    &&& (65536 * 65536 * (d.0.to_int() * d.0.to_int()) >= l2 || 65536 * 65536 * (d.2.to_int()
        * d.2.to_int()) >= l2)
}

/// The world-up vector.
pub open spec fn up_spec() -> Vec3 {
    Vec3(Fx(0), Fx(65536), Fx(0))
}

/// The normalized forward vector derived from a stored direction.
pub open spec fn f_of(d: Vec3) -> Vec3 {
    Vec3(
        Fx(norm_comp_spec(d, d.0.to_int()) as i64),
        Fx(norm_comp_spec(d, d.1.to_int()) as i64),
        Fx(norm_comp_spec(d, d.2.to_int()) as i64),
    )
}

/// The unnormalized side vector: forward crossed with world-up.
pub open spec fn s_of(d: Vec3) -> Vec3 {
    cross_spec(f_of(d), up_spec())
}

/// The normalized side vector.
pub open spec fn sn_of(d: Vec3) -> Vec3 {
    let s = s_of(d);
    Vec3(
        Fx(norm_comp_spec(s, s.0.to_int()) as i64),
        Fx(norm_comp_spec(s, s.1.to_int()) as i64),
        Fx(norm_comp_spec(s, s.2.to_int()) as i64),
    )
}

/// The derived up vector: side crossed with forward.
pub open spec fn u_of(d: Vec3) -> Vec3 {
    cross_spec(sn_of(d), f_of(d))
}

impl CameraState {
    /// The camera invariant: pose within the admitted volume, a usable view
    /// direction, a positive aspect ratio, and saturated pan accumulators.
    pub open spec fn wf(self) -> bool {
        &&& self.pos.bounded(POS_LIM as int)
        &&& self.dir.bounded(DIR_LIM as int)
        &&& dir_ok_spec(self.dir)
        &&& 1 <= self.aspect.to_int() <= 0x1000_0000
        &&& -REL_LIM <= self.rel_x <= REL_LIM
        &&& -REL_LIM <= self.rel_y <= REL_LIM
    }
}

/// The startup pose: 16:9 aspect, the origin, looking down negative z.
pub open spec fn new_camera_spec() -> CameraState {
    CameraState {
        aspect: Fx(116508),
        pos: Vec3(Fx(0), Fx(0), Fx(0)),
        dir: Vec3(Fx(0), Fx(0), Fx(-65536i64)),
        moving_up: false,
        moving_left: false,
        moving_down: false,
        moving_right: false,
        moving_forward: false,
        moving_backward: false,
        turning_up: false,
        turning_left: false,
        turning_down: false,
        turning_right: false,
        mouse_x: -1i32,
        mouse_y: -1i32,
        rel_x: 0,
        rel_y: 0,
    }
}

impl CameraState {
    /// Creates the camera in its startup pose.
    pub fn new() -> (c: CameraState)
        ensures
            c == new_camera_spec(),
            c.wf(),
    {
        let c = CameraState {
            aspect: Fx(116508),
            pos: Vec3(Fx(0), Fx(0), Fx(0)),
            dir: Vec3(Fx(0), Fx(0), Fx(-65536)),
            moving_up: false,
            moving_left: false,
            moving_down: false,
            moving_right: false,
            moving_forward: false,
            moving_backward: false,
            turning_up: false,
            turning_left: false,
            turning_down: false,
            turning_right: false,
            mouse_x: -1,
            mouse_y: -1,
            rel_x: 0,
            rel_y: 0,
        };
        proof {
            let d2 = c.dir.2.to_int();
            assert(d2 == -65536);
            assert((-65536int) * (-65536int) == 0x1_0000_0000int) by (nonlinear_arith);
            assert(len2_raw_spec(c.dir) == 0x1_0000_0000int);
            assert(65536int * 65536int == 0x1_0000_0000int) by (nonlinear_arith);
            assert(0x1_0000_0000int * 0x1_0000_0000int == 0x1_0000_0000_0000_0000int)
                by (nonlinear_arith);
        }
        c
    }

    /// Moves the camera to `pos`.
    pub fn set_pos(&mut self, pos: Vec3)
        requires
            pos.bounded(POS_LIM as int),
        ensures
            *final(self) == (CameraState { pos, ..*old(self) }),
    {
        self.pos = pos;
    }

    /// The current position.
    pub fn get_pos(&self) -> (r: Vec3)
        ensures
            r == self.pos,
    {
        self.pos
    }

    /// Points the camera along `dir`.  The direction must not be parallel
    /// to world-up (an unchecked algorithmic invariant of the basis
    /// derivation, imposed here as a precondition).
    pub fn set_dir(&mut self, dir: Vec3)
        requires
            dir.bounded(DIR_LIM as int),
            dir_ok_spec(dir),
        ensures
            *final(self) == (CameraState { dir, ..*old(self) }),
    {
        self.dir = dir;
    }
}

/// The fixed perspective matrix: vertical field of view of a quarter turn
/// (whose focal factor is exactly 1), near plane `ZNEAR_RAW`, far plane
/// `ZFAR_RAW`.
pub open spec fn persp_mat_spec(aspect: Fx) -> Mat4 {
    Mat4 {
        x: Vec4 {
            x: Fx(fx_div_spec(65536, aspect.to_int()) as i64),
            y: Fx(0),
            z: Fx(0),
            w: Fx(0),
        },
        y: Vec4 { x: Fx(0), y: Fx(65536), z: Fx(0), w: Fx(0) },
        z: Vec4 {
            x: Fx(0),
            y: Fx(0),
            z: Fx(fx_div_spec(ZFAR_RAW as int + ZNEAR_RAW as int, ZFAR_RAW as int - ZNEAR_RAW as int) as i64),
            w: Fx(65536),
        },
        w: Vec4 {
            x: Fx(0),
            y: Fx(0),
            z: Fx(
                (-fx_div_spec(
                    fx_mul_spec(2 * ZFAR_RAW as int, ZNEAR_RAW as int),
                    ZFAR_RAW as int - ZNEAR_RAW as int,
                )) as i64,
            ),
            w: Fx(0),
        },
    }
}

/// The rotation-and-translation entries of the view matrix; the translation
/// column projects the position on the side, derived-up and forward vectors
/// (deliberately using the unnormalized side vector for the x translation,
/// which is what the shipped look expects).
pub open spec fn view_p_spec(pos: Vec3, basis: Vec3) -> int {
    -(fx_mul_spec(pos.0.to_int(), basis.0.to_int()) + fx_mul_spec(
        pos.1.to_int(),
        basis.1.to_int(),
    ) + fx_mul_spec(pos.2.to_int(), basis.2.to_int()))
}

/// The view matrix derived from a pose.
pub open spec fn view_mat_spec(pos: Vec3, dir: Vec3) -> Mat4 {
    let f = f_of(dir);
    let s = s_of(dir);
    let sn = sn_of(dir);
    let u = u_of(dir);
    Mat4 {
        x: Vec4 { x: sn.0, y: u.0, z: f.0, w: Fx(0) },
        y: Vec4 { x: sn.1, y: u.1, z: f.1, w: Fx(0) },
        z: Vec4 { x: sn.2, y: u.2, z: f.2, w: Fx(0) },
        w: Vec4 {
            x: Fx(view_p_spec(pos, s) as i64),
            y: Fx(view_p_spec(pos, u) as i64),
            z: Fx(view_p_spec(pos, f) as i64),
            w: Fx(65536),
        },
    }
}

/// A product of two unit-bounded raw values is admissible and stays
/// unit-bounded.
pub proof fn lemma_unit_mul(a: int, b: int)
    requires
        -65536 <= a <= 65536,
        -65536 <= b <= 65536,
    ensures
        fx_mul_ok(a, b),
        -65536 <= fx_mul_spec(a, b) <= 65536,
{
    lemma_abs_mul_le(a, b, 65536, 65536);
    assert(65536int * 65536int == 0x1_0000_0000int) by (nonlinear_arith);
    lemma_fx_mul_spec_bound(a, b, 65536, 65536);
    assert(0x1_0000_0000int / 65536int == 65536int);
}

/// A position entry times a doubled-unit basis entry is admissible and
/// bounded by `2^33`.
pub proof fn lemma_pos_mul(a: int, b: int)
    requires
        -0x1_0000_0000 <= a <= 0x1_0000_0000,
        -0x2_0000 <= b <= 0x2_0000,
    ensures
        fx_mul_ok(a, b),
        -0x2_0000_0000 <= fx_mul_spec(a, b) <= 0x2_0000_0000,
{
    lemma_abs_mul_le(a, b, 0x1_0000_0000, 0x2_0000);
    assert(0x1_0000_0000int * 0x2_0000int == 0x2_0000_0000_0000int) by (nonlinear_arith);
    lemma_fx_mul_spec_bound(a, b, 0x1_0000_0000, 0x2_0000);
    assert(0x2_0000_0000_0000int / 65536int == 0x2_0000_0000int);
}

/// A normalized direction keeps a nonzero horizontal component: the side
/// vector derived from it cannot vanish.
pub proof fn lemma_dir_horizontal(d: Vec3)
    requires
        d.bounded(DIR_LIM as int),
        dir_ok_spec(d),
    ensures
        norm_comp_spec(d, d.0.to_int()) != 0 || norm_comp_spec(d, d.2.to_int()) != 0,
{
    let l2 = len2_raw_spec(d);
    lemma_isqrt_exists(l2);
    let len = len_raw_spec(d);
    assert(is_isqrt(l2, len));
    assert(len >= 1) by (nonlinear_arith)
        requires
            is_isqrt(l2, len),
            l2 > 0,
    ;
    if 65536 * 65536 * (d.0.to_int() * d.0.to_int()) >= l2 {
        lemma_scaled_comp_reaches(d.0.to_int(), l2, len);
    } else {
        lemma_scaled_comp_reaches(d.2.to_int(), l2, len);
    }
}

/// If the scaled square of a component reaches the squared length, the
/// normalized component is nonzero.
proof fn lemma_scaled_comp_reaches(c: int, l2: int, len: int)
    requires
        is_isqrt(l2, len),
        l2 > 0,
        len >= 1,
        65536 * 65536 * (c * c) >= l2,
    ensures
        fx_div_spec(c, len) != 0,
{
    let ac = vstd::math::abs(c) as int;
    assert(ac * 65536 >= len) by (nonlinear_arith)
        requires
            len * len <= l2,
            65536 * 65536 * (c * c) >= l2,
            ac == vstd::math::abs(c) as int,
            (c >= 0 ==> ac == c) && (c < 0 ==> ac == -c),
            len >= 1,
    ;
    assert((ac * 65536) / len >= len / len) by {
        lemma_div_is_ordered(len, ac * 65536, len);
    }
    lemma_div_by_self(len);
    assert((ac * 65536) / len >= 1);
}

impl CameraState {
    /// The perspective (projection) matrix; a pure function of the aspect
    /// ratio, identical on every call.
    pub fn get_persp_mat(&self) -> (r: Mat4)
        requires
            self.wf(),
        ensures
            r == persp_mat_spec(self.aspect),
            r.bounded(0x1_0000_0000int),
    {
        let fa = Fx(65536).div(self.aspect);
        let zz = Fx(ZFAR_RAW + ZNEAR_RAW).div(Fx(ZFAR_RAW - ZNEAR_RAW));
        let num = Fx(2 * ZFAR_RAW).mul(Fx(ZNEAR_RAW));
        let wz = num.div(Fx(ZFAR_RAW - ZNEAR_RAW)).neg();
        proof {
            lemma_abs_mul_le(2 * ZFAR_RAW as int, ZNEAR_RAW as int, 2 * ZFAR_RAW as int, ZNEAR_RAW as int);
            lemma_persp_entry_bounds(self.aspect);
        }
        Mat4 {
            x: Vec4 { x: fa, y: Fx(0), z: Fx(0), w: Fx(0) },
            y: Vec4 { x: Fx(0), y: Fx(65536), z: Fx(0), w: Fx(0) },
            z: Vec4 { x: Fx(0), y: Fx(0), z: zz, w: Fx(65536) },
            w: Vec4 { x: Fx(0), y: Fx(0), z: wz, w: Fx(0) },
        }
    }

    /// The view matrix; a pure function of position and direction,
    /// identical on every call.
    pub fn get_view_mat(&self) -> (r: Mat4)
        requires
            self.wf(),
        ensures
            r == view_mat_spec(self.pos, self.dir),
            r.bounded(0x10_0000_0000int),
    {
        let (f, s, sn, u) = camera_basis(&self.dir);
        let px = view_p(&self.pos, &s);
        let py = view_p(&self.pos, &u);
        let pz = view_p(&self.pos, &f);
        Mat4 {
            x: Vec4 { x: sn.0, y: u.0, z: f.0, w: Fx(0) },
            y: Vec4 { x: sn.1, y: u.1, z: f.1, w: Fx(0) },
            z: Vec4 { x: sn.2, y: u.2, z: f.2, w: Fx(0) },
            w: Vec4 { x: px, y: py, z: pz, w: Fx(65536) },
        }
    }

    /// The product of perspective and view matrices.
    pub fn get_perspview(&self) -> (r: Mat4)
        requires
            self.wf(),
        ensures
            r == mat_mul_spec(persp_mat_spec(self.aspect), view_mat_spec(self.pos, self.dir)),
    {
        let p = self.get_persp_mat();
        let v = self.get_view_mat();
        mat_mul(&p, &v)
    }

    /// The perspective matrix (alias of `get_persp_mat`, kept for callers
    /// that expect the raw column array).
    pub fn get_perspective(&self) -> (r: Mat4)
        requires
            self.wf(),
        ensures
            r == persp_mat_spec(self.aspect),
    {
        self.get_persp_mat()
    }

    /// The view matrix (alias of `get_view_mat`).
    pub fn get_view(&self) -> (r: Mat4)
        requires
            self.wf(),
        ensures
            r == view_mat_spec(self.pos, self.dir),
    {
        self.get_view_mat()
    }
}

/// The perspective entries: the focal column stays within `2^32`, the
/// depth entries have fixed ground values.
proof fn lemma_persp_entry_bounds(aspect: Fx)
    requires
        1 <= aspect.to_int() <= 0x1000_0000,
    ensures
        0 <= fx_div_spec(65536, aspect.to_int()) <= 0x1_0000_0000,
        fx_div_spec(ZFAR_RAW as int + ZNEAR_RAW as int, ZFAR_RAW as int - ZNEAR_RAW as int)
            == 65548,
        fx_mul_spec(2 * ZFAR_RAW as int, ZNEAR_RAW as int) == 13422592,
        fx_div_spec(13422592, ZFAR_RAW as int - ZNEAR_RAW as int) == 13109,
{
    let n = 65536int * 65536;
    vstd::arithmetic::div_mod::lemma_div_pos_is_pos(n, aspect.to_int());
    vstd::arithmetic::div_mod::lemma_div_is_ordered_by_denominator(n, 1, aspect.to_int());
    vstd::arithmetic::div_mod::lemma_div_basics(n);
    assert(fx_div_spec(65536, aspect.to_int()) == n / aspect.to_int());
    assert(n / aspect.to_int() <= n / 1);
    assert(67115418int * 65536int / 67102310int == 65548int);
    assert(2int * 67108864int * 6554int == 879662989312int) by (nonlinear_arith);
    assert(879662989312int / 65536int == 13422592int);
    assert(13422592int * 65536int / 67102310int == 13109int);
}

/// Derives the orthonormal-ish basis from a stored direction: the
/// normalized forward vector, the raw side vector, the normalized side
/// vector, and the derived up vector.
fn camera_basis(dir: &Vec3) -> (r: (Vec3, Vec3, Vec3, Vec3))
    requires
        dir.bounded(DIR_LIM as int),
        dir_ok_spec(*dir),
    ensures
        r.0 == f_of(*dir),
        r.1 == s_of(*dir),
        r.2 == sn_of(*dir),
        r.3 == u_of(*dir),
        r.0.bounded(FX_SCALE as int),
        r.1.bounded(FX_SCALE as int),
        r.2.bounded(FX_SCALE as int),
        r.3.bounded(2 * FX_SCALE as int),
{
    let f = norm(dir);
    let up = Vec3(Fx(0), Fx(65536), Fx(0));
    let s = f.cross(up);
    proof {
        lemma_fx_mul_one(f.0.to_int());
        lemma_fx_mul_one(f.1.to_int());
        lemma_fx_mul_one(f.2.to_int());
        assert(s.0.to_int() == -f.2.to_int());
        assert(s.1.to_int() == 0);
        assert(s.2.to_int() == f.0.to_int());
        lemma_dir_horizontal(*dir);
        assert(len2_raw_spec(s) > 0) by (nonlinear_arith)
            requires
                s.0.to_int() == -f.2.to_int(),
                s.1.to_int() == 0,
                s.2.to_int() == f.0.to_int(),
                f.0.to_int() != 0 || f.2.to_int() != 0,
        ;
    }
    let sn = norm(&s);
    let u = sn.cross(f);
    proof {
        lemma_unit_mul(sn.1.to_int(), f.2.to_int());
        lemma_unit_mul(sn.2.to_int(), f.1.to_int());
        lemma_unit_mul(sn.2.to_int(), f.0.to_int());
        lemma_unit_mul(sn.0.to_int(), f.2.to_int());
        lemma_unit_mul(sn.0.to_int(), f.1.to_int());
        lemma_unit_mul(sn.1.to_int(), f.0.to_int());
    }
    (f, s, sn, u)
}

/// One translation entry of the view matrix: minus the projection of the
/// position on a basis vector.
fn view_p(pos: &Vec3, basis: &Vec3) -> (r: Fx)
    requires
        pos.bounded(POS_LIM as int),
        basis.bounded(2 * FX_SCALE as int),
    ensures
        r.to_int() == view_p_spec(*pos, *basis),
        -0x6_0000_0000 <= r.to_int() <= 0x6_0000_0000,
{
    proof {
        lemma_pos_mul(pos.0.to_int(), basis.0.to_int());
        lemma_pos_mul(pos.1.to_int(), basis.1.to_int());
        lemma_pos_mul(pos.2.to_int(), basis.2.to_int());
    }
    let a = pos.0.mul(basis.0);
    let b = pos.1.mul(basis.1);
    let c = pos.2.mul(basis.2);
    Fx(-(a.0 + b.0 + c.0))
}

/// Clamping a raw coordinate into the flying volume.
pub open spec fn clamp_pos_i(x: int) -> int {
    if x < -POS_LIM {
        -(POS_LIM as int)
    } else if x > POS_LIM {
        POS_LIM as int
    } else {
        x
    }
}

/// Clamping each coordinate of a position into the flying volume.
pub open spec fn clamp_pos_spec(p: Vec3) -> Vec3 {
    Vec3(
        Fx(clamp_pos_i(p.0.to_int()) as i64),
        Fx(clamp_pos_i(p.1.to_int()) as i64),
        Fx(clamp_pos_i(p.2.to_int()) as i64),
    )
}

/// `p` plus `v` scaled by the raw factor `k`, componentwise.
pub open spec fn vadd_scaled(p: Vec3, v: Vec3, k: int) -> Vec3 {
    Vec3(
        Fx((p.0.to_int() + fx_mul_spec(v.0.to_int(), k)) as i64),
        Fx((p.1.to_int() + fx_mul_spec(v.1.to_int(), k)) as i64),
        Fx((p.2.to_int() + fx_mul_spec(v.2.to_int(), k)) as i64),
    )
}

/// `p` minus `v` scaled by the raw factor `k`, componentwise.
pub open spec fn vsub_scaled(p: Vec3, v: Vec3, k: int) -> Vec3 {
    Vec3(
        Fx((p.0.to_int() - fx_mul_spec(v.0.to_int(), k)) as i64),
        Fx((p.1.to_int() - fx_mul_spec(v.1.to_int(), k)) as i64),
        Fx((p.2.to_int() - fx_mul_spec(v.2.to_int(), k)) as i64),
    )
}

/// Where one update moves the camera: each active intent adds its scaled
/// basis vector (strafes along the derived up and side vectors, walks along
/// the forward vector), before clamping.
#[verifier::opaque]
pub open spec fn moved_spec(c: CameraState, f: Vec3, sn: Vec3, u: Vec3) -> Vec3 {
    let p1 = if c.moving_up {
        vadd_scaled(c.pos, u, STRAFE_SPEED as int)
    } else {
        c.pos
    };
    let p2 = if c.moving_down {
        vsub_scaled(p1, u, STRAFE_SPEED as int)
    } else {
        p1
    };
    let p3 = if c.moving_left {
        vsub_scaled(p2, sn, STRAFE_SPEED as int)
    } else {
        p2
    };
    let p4 = if c.moving_right {
        vadd_scaled(p3, sn, STRAFE_SPEED as int)
    } else {
        p3
    };
    let p5 = if c.moving_forward {
        vadd_scaled(p4, f, WALK_SPEED as int)
    } else {
        p4
    };
    if c.moving_backward {
        vsub_scaled(p5, f, WALK_SPEED as int)
    } else {
        p5
    }
}

/// The pan accumulator after the turn keys have added their fixed deltas.
pub open spec fn relx_adjusted(c: CameraState) -> int {
    c.rel_x + (if c.turning_left { -8int } else { 0int }) + (if c.turning_right { 8int } else { 0int })
}

pub open spec fn rely_adjusted(c: CameraState) -> int {
    c.rel_y + (if c.turning_up { -2int } else { 0int }) + (if c.turning_down { 2int } else { 0int })
}

/// The direction after one update's turn: the normalized forward vector
/// rotated by the small angles accumulated from mouse and key deltas.
#[verifier::opaque]
pub open spec fn turned_dir_spec(c: CameraState) -> Vec3 {
    let f = f_of(c.dir);
    let ax = -(PAN_SPEED as int) * relx_adjusted(c);
    let ay = -(PAN_SPEED as int) * rely_adjusted(c);
    let sx = crate::trig::sin_spec(ax);
    let cx = crate::trig::cos_spec(ax);
    let sy = crate::trig::sin_spec(ay);
    let cy = crate::trig::cos_spec(ay);
    Vec3(
        Fx((fx_mul_spec(f.0.to_int(), cx) + fx_mul_spec(f.2.to_int(), sx)) as i64),
        Fx((fx_mul_spec(f.1.to_int(), cy) - fx_mul_spec(f.2.to_int(), sy)) as i64),
        Fx(
            (fx_mul_spec(f.1.to_int(), sy) - fx_mul_spec(f.0.to_int(), sx) + fx_mul_spec(
                fx_mul_spec(f.2.to_int(), cx),
                cy,
            )) as i64,
        ),
    )
}

/// The whole effect of one update: integrated movement (clamped to the
/// flying volume), the turned direction (discarded if it would degenerate),
/// and cleared pan accumulators.
pub open spec fn update_spec(c: CameraState) -> CameraState {
    let t = turned_dir_spec(c);
    CameraState {
        pos: clamp_pos_spec(moved_spec(c, f_of(c.dir), sn_of(c.dir), u_of(c.dir))),
        dir: if dir_ok_spec(t) {
            t
        } else {
            c.dir
        },
        rel_x: 0,
        rel_y: 0,
        ..c
    }
}

/// A doubled-unit basis entry scaled by a speed constant is admissible and
/// tiny.
pub proof fn lemma_speed_mul(a: int, k: int)
    requires
        -0x2_0000 <= a <= 0x2_0000,
        0 <= k <= 1311,
    ensures
        fx_mul_ok(a, k),
        -2622 <= fx_mul_spec(a, k) <= 2622,
{
    lemma_abs_mul_le(a, k, 0x2_0000, 1311);
    assert(0x2_0000int * 1311int == 171835392int) by (nonlinear_arith);
    lemma_fx_mul_spec_bound(a, k, 0x2_0000, 1311);
    assert(171835392int / 65536int == 2622int);
}

/// Decides whether a candidate direction keeps a usable horizontal
/// component.
fn dir_ok(d: &Vec3) -> (b: bool)
    requires
        d.bounded(DIR_LIM as int),
    ensures
        b == dir_ok_spec(*d),
{
    let x = d.0.0;
    let y = d.1.0;
    let z = d.2.0;
    proof {
        lemma_abs_mul_le(x as int, x as int, DIR_LIM as int, DIR_LIM as int);
        lemma_abs_mul_le(y as int, y as int, DIR_LIM as int, DIR_LIM as int);
        lemma_abs_mul_le(z as int, z as int, DIR_LIM as int, DIR_LIM as int);
        assert(x as int * (x as int) >= 0) by (nonlinear_arith);
        assert(y as int * (y as int) >= 0) by (nonlinear_arith);
        assert(z as int * (z as int) >= 0) by (nonlinear_arith);
        assert(0x10_0000int * 0x10_0000int == 0x100_0000_0000int) by (nonlinear_arith);
    }
    let x2 = (x * x) as u64;
    let y2 = (y * y) as u64;
    let z2 = (z * z) as u64;
    let l2 = x2 + y2 + z2;
    if l2 == 0 {
        return false;
    }
    proof {
        assert(65536int * 65536int == 4294967296int) by (nonlinear_arith);
        lemma_abs_mul_le(x2 as int, 4294967296, 0x100_0000_0000, 4294967296);
        lemma_abs_mul_le(z2 as int, 4294967296, 0x100_0000_0000, 4294967296);
        assert(0x100_0000_0000int * 4294967296int == 0x100_0000_0000_0000_0000int)
            by (nonlinear_arith);
    }
    let sx = (x2 as u128) * 4294967296;
    let sz = (z2 as u128) * 4294967296;
    proof {
        assert((65536 * 65536) * ((x as int) * (x as int)) == (x2 as int) * 4294967296int)
            by (nonlinear_arith)
            requires
                x2 as int == (x as int) * (x as int),
        ;
        assert((65536 * 65536) * ((z as int) * (z as int)) == (z2 as int) * 4294967296int)
            by (nonlinear_arith)
            requires
                z2 as int == (z as int) * (z as int),
        ;
        assert(l2 as int == len2_raw_spec(*d));
    }
    sx >= (l2 as u128) || sz >= (l2 as u128)
}

impl CameraState {
    /// Integrates the active movement intents along the derived basis.
    #[verifier::rlimit(100)]
    fn moved_pos(&self, f: Vec3, sn: Vec3, u: Vec3) -> (p: Vec3)
        requires
            self.wf(),
            f.bounded(FX_SCALE as int),
            sn.bounded(FX_SCALE as int),
            u.bounded(2 * FX_SCALE as int),
        ensures
            p == moved_spec(*self, f, sn, u),
            p.bounded(POS_LIM as int + 16000),
    {
        let mut p = self.pos;
        proof {
            lemma_speed_mul(u.0.to_int(), STRAFE_SPEED as int);
            lemma_speed_mul(u.1.to_int(), STRAFE_SPEED as int);
            lemma_speed_mul(u.2.to_int(), STRAFE_SPEED as int);
            lemma_speed_mul(sn.0.to_int(), STRAFE_SPEED as int);
            lemma_speed_mul(sn.1.to_int(), STRAFE_SPEED as int);
            lemma_speed_mul(sn.2.to_int(), STRAFE_SPEED as int);
            lemma_speed_mul(f.0.to_int(), WALK_SPEED as int);
            lemma_speed_mul(f.1.to_int(), WALK_SPEED as int);
            lemma_speed_mul(f.2.to_int(), WALK_SPEED as int);
        }
        let ghost c0 = *self;
        if self.moving_up {
            p = p.add(u.scale(Fx(STRAFE_SPEED)));
        }
        proof {
            assert(p == (if c0.moving_up {
                vadd_scaled(c0.pos, u, STRAFE_SPEED as int)
            } else {
                c0.pos
            }));
        }
        proof {
            assert(p.bounded(POS_LIM as int + 2622));
        }
        let ghost q1 = p;
        if self.moving_down {
            p = p.sub(u.scale(Fx(STRAFE_SPEED)));
        }
        proof {
            assert(p == (if c0.moving_down {
                vsub_scaled(q1, u, STRAFE_SPEED as int)
            } else {
                q1
            }));
        }
        proof {
            assert(p.bounded(POS_LIM as int + 2 * 2622));
        }
        let ghost q2 = p;
        if self.moving_left {
            p = p.sub(sn.scale(Fx(STRAFE_SPEED)));
        }
        proof {
            assert(p == (if c0.moving_left {
                vsub_scaled(q2, sn, STRAFE_SPEED as int)
            } else {
                q2
            }));
        }
        proof {
            assert(p.bounded(POS_LIM as int + 3 * 2622));
        }
        let ghost q3 = p;
        if self.moving_right {
            p = p.add(sn.scale(Fx(STRAFE_SPEED)));
        }
        proof {
            assert(p == (if c0.moving_right {
                vadd_scaled(q3, sn, STRAFE_SPEED as int)
            } else {
                q3
            }));
        }
        proof {
            assert(p.bounded(POS_LIM as int + 4 * 2622));
        }
        let ghost q4 = p;
        if self.moving_forward {
            p = p.add(f.scale(Fx(WALK_SPEED)));
        }
        proof {
            assert(p == (if c0.moving_forward {
                vadd_scaled(q4, f, WALK_SPEED as int)
            } else {
                q4
            }));
        }
        proof {
            assert(p.bounded(POS_LIM as int + 5 * 2622));
        }
        let ghost q5 = p;
        if self.moving_backward {
            p = p.sub(f.scale(Fx(WALK_SPEED)));
        }
        proof {
            assert(p == (if c0.moving_backward {
                vsub_scaled(q5, f, WALK_SPEED as int)
            } else {
                q5
            }));
            reveal(crate::camera::moved_spec);
            assert(p == moved_spec(c0, f, sn, u));
        }
        p
    }

    /// Rotates the normalized forward vector by the accumulated pan deltas.
    fn turned_dir(&self, f: Vec3) -> (t: Vec3)
        requires
            self.wf(),
            f == f_of(self.dir),
            f.bounded(FX_SCALE as int),
        ensures
            t == turned_dir_spec(*self),
            t.bounded(3 * FX_SCALE as int),
    {
        let mut rx = self.rel_x;
        if self.turning_left {
            rx = rx - 8;
        }
        if self.turning_right {
            rx = rx + 8;
        }
        let mut ry = self.rel_y;
        if self.turning_up {
            ry = ry - 2;
        }
        if self.turning_down {
            ry = ry + 2;
        }
        let ax = Fx(-(PAN_SPEED * (rx as i64)));
        let ay = Fx(-(PAN_SPEED * (ry as i64)));
        let sx = crate::trig::sin_fx(ax);
        let cx = crate::trig::cos_fx(ax);
        let sy = crate::trig::sin_fx(ay);
        let cy = crate::trig::cos_fx(ay);
        proof {
            reveal(crate::camera::turned_dir_spec);
            lemma_unit_mul(f.0.to_int(), cx.to_int());
            lemma_unit_mul(f.2.to_int(), sx.to_int());
            lemma_unit_mul(f.1.to_int(), cy.to_int());
            lemma_unit_mul(f.2.to_int(), sy.to_int());
            lemma_unit_mul(f.1.to_int(), sy.to_int());
            lemma_unit_mul(f.0.to_int(), sx.to_int());
            lemma_unit_mul(f.2.to_int(), cx.to_int());
            lemma_unit_mul(fx_mul_spec(f.2.to_int(), cx.to_int()), cy.to_int());
        }
        Vec3(
            Fx(f.0.mul(cx).0 + f.2.mul(sx).0),
            Fx(f.1.mul(cy).0 - f.2.mul(sy).0),
            Fx(f.1.mul(sy).0 - f.0.mul(sx).0 + f.2.mul(cx).mul(cy).0),
        )
    }

    /// Integrates the movement and turn intents into the pose, once per
    /// frame, and clears the pan accumulators.
    #[verifier::rlimit(100)]
    pub fn update(&mut self)
        requires
            old(self).wf(),
        ensures
            *final(self) == update_spec(*old(self)),
            final(self).wf(),
    {
        let ghost c0 = *old(self);
        let (f, _s, sn, u) = camera_basis(&self.dir);
        let p = self.moved_pos(f, sn, u);
        let lo = Fx(-POS_LIM);
        let hi = Fx(POS_LIM);
        let t = self.turned_dir(f);
        proof {
            assert(p == moved_spec(c0, f_of(c0.dir), sn_of(c0.dir), u_of(c0.dir)));
            assert(t == turned_dir_spec(c0));
        }
        self.pos = Vec3(p.0.clamp(lo, hi), p.1.clamp(lo, hi), p.2.clamp(lo, hi));
        proof {
            assert(self.pos == clamp_pos_spec(
                moved_spec(c0, f_of(c0.dir), sn_of(c0.dir), u_of(c0.dir)),
            ));
        }
        if dir_ok(&t) {
            self.dir = t;
        }
        proof {
            assert(self.dir == (if dir_ok_spec(turned_dir_spec(c0)) {
                turned_dir_spec(c0)
            } else {
                c0.dir
            }));
        }
        self.rel_x = 0;
        self.rel_y = 0;
        proof {
            assert(*self == update_spec(c0));
        }
    }
}

/// Saturates an accumulated pan delta.
pub open spec fn clamp_rel(v: int) -> int {
    if v < -REL_LIM {
        -(REL_LIM as int)
    } else if v > REL_LIM {
        REL_LIM as int
    } else {
        v
    }
}

/// The flag a key toggles, set or cleared.
pub open spec fn set_key_spec(c: CameraState, k: Key, on: bool) -> CameraState {
    match k {
        Key::Up => CameraState { moving_up: on, ..c },
        Key::Down => CameraState { moving_down: on, ..c },
        Key::Left => CameraState { moving_left: on, ..c },
        Key::Right => CameraState { moving_right: on, ..c },
        Key::A => CameraState { turning_left: on, ..c },
        Key::D => CameraState { turning_right: on, ..c },
        Key::W => CameraState { moving_forward: on, ..c },
        Key::S => CameraState { moving_backward: on, ..c },
        Key::R => CameraState { turning_up: on, ..c },
        Key::F => CameraState { turning_down: on, ..c },
    }
}

/// What one input event does to the camera: pointer motion accumulates
/// (saturating) pan deltas against the last absolute position, key
/// transitions only flip intent flags.  No matrices are touched.
pub open spec fn process_spec(c: CameraState, e: InputEvent) -> CameraState {
    match e {
        InputEvent::MouseMoved(x, y) => {
            let mx = if c.mouse_x == -1 {
                x as int
            } else {
                c.mouse_x as int
            };
            let my = if c.mouse_x == -1 {
                y as int
            } else {
                c.mouse_y as int
            };
            CameraState {
                rel_x: clamp_rel(c.rel_x + (x as int - mx)) as i32,
                rel_y: clamp_rel(c.rel_y + (y as int - my)) as i32,
                mouse_x: x,
                mouse_y: y,
                ..c
            }
        },
        InputEvent::KeyPressed(k) => set_key_spec(c, k, true),
        InputEvent::KeyReleased(k) => set_key_spec(c, k, false),
    }
}

/// Saturates a widened pan accumulator back into its 32-bit range.
fn clamp_rel_exec(v: i64) -> (r: i32)
    ensures
        r as int == clamp_rel(v as int),
{
    if v < -(REL_LIM as i64) {
        -REL_LIM
    } else if v > REL_LIM as i64 {
        REL_LIM
    } else {
        v as i32
    }
}

impl CameraState {
    /// Applies one key transition to its intent flag.
    #[verifier::rlimit(100)]
    fn set_key(&mut self, k: Key, on: bool)
        ensures
            *final(self) == set_key_spec(*old(self), k, on),
    {
        match k {
            Key::Up => self.moving_up = on,
            Key::Down => self.moving_down = on,
            Key::Left => self.moving_left = on,
            Key::Right => self.moving_right = on,
            Key::A => self.turning_left = on,
            Key::D => self.turning_right = on,
            Key::W => self.moving_forward = on,
            Key::S => self.moving_backward = on,
            Key::R => self.turning_up = on,
            Key::F => self.turning_down = on,
        }
    }

    /// Consumes one input event: pure state mutation of intent flags and
    /// pan accumulators, no matrix computation.
    pub fn process_input(&mut self, event: &InputEvent)
        ensures
            *final(self) == process_spec(*old(self), *event),
            old(self).wf() ==> final(self).wf(),
    {
        match *event {
            InputEvent::MouseMoved(x, y) => {
                if self.mouse_x == -1 {
                    self.mouse_x = x;
                    self.mouse_y = y;
                }
                let dx = (x as i64) - (self.mouse_x as i64);
                let dy = (y as i64) - (self.mouse_y as i64);
                self.rel_x = clamp_rel_exec((self.rel_x as i64) + dx);
                self.rel_y = clamp_rel_exec((self.rel_y as i64) + dy);
                self.mouse_x = x;
                self.mouse_y = y;
            },
            InputEvent::KeyPressed(k) => self.set_key(k, true),
            InputEvent::KeyReleased(k) => self.set_key(k, false),
        }
    }
}

} // verus!
