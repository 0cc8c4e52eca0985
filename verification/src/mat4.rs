//! Fixed-point 4-vectors and column-major 4x4 matrices.

use vstd::prelude::*;
use crate::fixed::{Fx, fx_mul_spec, fx_mul_ok, lemma_abs_mul_le, lemma_fx_mul_spec_bound, FX_SCALE};

verus! {

/// Largest admitted raw magnitude of a matrix or vector entry in products.
pub const MAT_LIM: i64 = 0x40_0000_0000;

/// A 4-vector of fixed-point scalars.
#[derive(Clone, Copy, Debug, PartialEq, Eq, Structural)]
pub struct Vec4 {
    pub x: Fx,
    pub y: Fx,
    pub z: Fx,
    pub w: Fx,
}

/// A 4x4 matrix, stored as four columns (column-major, as the rasterizer
/// expects it).
#[derive(Clone, Copy, Debug, PartialEq, Eq, Structural)]
pub struct Mat4 {
    pub x: Vec4,
    pub y: Vec4,
    pub z: Vec4,
    pub w: Vec4,
}

impl Vec4 {
    /// Every component has magnitude at most `m` (raw units).
    pub open spec fn bounded(self, m: int) -> bool {
        &&& -m <= self.x.to_int() <= m
        &&& -m <= self.y.to_int() <= m
        &&& -m <= self.z.to_int() <= m
        &&& -m <= self.w.to_int() <= m
    }
}

impl Mat4 {
    /// Every entry has magnitude at most `m` (raw units).
    pub open spec fn bounded(self, m: int) -> bool {
        &&& self.x.bounded(m)
        &&& self.y.bounded(m)
        &&& self.z.bounded(m)
        &&& self.w.bounded(m)
    }

}

/// A row `(a0 a1 a2 a3)` dotted with a column `(b0 b1 b2 b3)`, each product
/// truncated in fixed point.
pub open spec fn dot4_spec(
    a0: int,
    a1: int,
    a2: int,
    a3: int,
    b0: int,
    b1: int,
    b2: int,
    b3: int,
) -> int {
    fx_mul_spec(a0, b0) + fx_mul_spec(a1, b1) + fx_mul_spec(a2, b2) + fx_mul_spec(a3, b3)
}

/// Row `i` of `m` dotted with the column vector `v`, for each component.
pub open spec fn mvx_spec(m: Mat4, v: Vec4) -> int {
    dot4_spec(
        m.x.x.to_int(),
        m.y.x.to_int(),
        m.z.x.to_int(),
        m.w.x.to_int(),
        v.x.to_int(),
        v.y.to_int(),
        v.z.to_int(),
        v.w.to_int(),
    )
}

pub open spec fn mvy_spec(m: Mat4, v: Vec4) -> int {
    dot4_spec(
        m.x.y.to_int(),
        m.y.y.to_int(),
        m.z.y.to_int(),
        m.w.y.to_int(),
        v.x.to_int(),
        v.y.to_int(),
        v.z.to_int(),
        v.w.to_int(),
    )
}

pub open spec fn mvz_spec(m: Mat4, v: Vec4) -> int {
    dot4_spec(
        m.x.z.to_int(),
        m.y.z.to_int(),
        m.z.z.to_int(),
        m.w.z.to_int(),
        v.x.to_int(),
        v.y.to_int(),
        v.z.to_int(),
        v.w.to_int(),
    )
}

pub open spec fn mvw_spec(m: Mat4, v: Vec4) -> int {
    dot4_spec(
        m.x.w.to_int(),
        m.y.w.to_int(),
        m.z.w.to_int(),
        m.w.w.to_int(),
        v.x.to_int(),
        v.y.to_int(),
        v.z.to_int(),
        v.w.to_int(),
    )
}

/// Multiplies the matrix by a column vector.
pub fn mat_vec_mul(m: &Mat4, v: Vec4) -> (r: Vec4)
    requires
        m.bounded(MAT_LIM as int),
        v.bounded(MAT_LIM as int),
    ensures
        r.x.to_int() == mvx_spec(*m, v),
        r.y.to_int() == mvy_spec(*m, v),
        r.z.to_int() == mvz_spec(*m, v),
        r.w.to_int() == mvw_spec(*m, v),
        r.bounded(4int * 0x1000_0000_0000_0000),
{
    proof {
        lemma_mat_vec_entries(*m, v);
    }
    let x = m.x.x.mul(v.x).add(m.y.x.mul(v.y)).add(m.z.x.mul(v.z)).add(m.w.x.mul(v.w));
    let y = m.x.y.mul(v.x).add(m.y.y.mul(v.y)).add(m.z.y.mul(v.z)).add(m.w.y.mul(v.w));
    let z = m.x.z.mul(v.x).add(m.y.z.mul(v.y)).add(m.z.z.mul(v.z)).add(m.w.z.mul(v.w));
    let w = m.x.w.mul(v.x).add(m.y.w.mul(v.y)).add(m.z.w.mul(v.z)).add(m.w.w.mul(v.w));
    Vec4 { x, y, z, w }
}

/// Every pairwise product of `MAT_LIM`-bounded entries is admissible, and
/// each truncated product stays within a quarter of the signed 64-bit range.
proof fn lemma_mat_vec_entries(m: Mat4, v: Vec4)
    requires
        m.bounded(MAT_LIM as int),
        v.bounded(MAT_LIM as int),
    ensures
        forall|a: int, b: int|
            -(MAT_LIM as int) <= a <= MAT_LIM as int && -(MAT_LIM as int) <= b <= MAT_LIM as int
                ==> #[trigger] fx_mul_ok(a, b),
        forall|a: int, b: int|
            -(MAT_LIM as int) <= a <= MAT_LIM as int && -(MAT_LIM as int) <= b <= MAT_LIM as int
                ==> -0x1000_0000_0000_0000 <= #[trigger] fx_mul_spec(a, b) <= 0x1000_0000_0000_0000,
{
    assert forall|a: int, b: int|
        -(MAT_LIM as int) <= a <= MAT_LIM as int && -(MAT_LIM as int) <= b <= MAT_LIM as int
        implies #[trigger] fx_mul_ok(a, b) by {
        lemma_abs_mul_le(a, b, MAT_LIM as int, MAT_LIM as int);
        assert(0x40_0000_0000int * 0x40_0000_0000int == 0x1000_0000_0000_0000_0000int)
            by (nonlinear_arith);
    }
    assert forall|a: int, b: int|
        -(MAT_LIM as int) <= a <= MAT_LIM as int && -(MAT_LIM as int) <= b <= MAT_LIM as int
        implies -0x1000_0000_0000_0000 <= #[trigger] fx_mul_spec(a, b)
        <= 0x1000_0000_0000_0000 by {
        lemma_abs_mul_le(a, b, MAT_LIM as int, MAT_LIM as int);
        assert(0x40_0000_0000int * 0x40_0000_0000int == 0x1000_0000_0000_0000_0000int)
            by (nonlinear_arith);
        lemma_fx_mul_spec_bound(a, b, MAT_LIM as int, MAT_LIM as int);
        assert(0x1000_0000_0000_0000_0000int / 65536int == 0x1000_0000_0000_0000int);
    }
}

/// The matrix product `a * b`, as a value.
pub open spec fn mat_mul_spec(a: Mat4, b: Mat4) -> Mat4 {
    Mat4 {
        x: Vec4 {
            x: Fx(mvx_spec(a, b.x) as i64),
            y: Fx(mvy_spec(a, b.x) as i64),
            z: Fx(mvz_spec(a, b.x) as i64),
            w: Fx(mvw_spec(a, b.x) as i64),
        },
        y: Vec4 {
            x: Fx(mvx_spec(a, b.y) as i64),
            y: Fx(mvy_spec(a, b.y) as i64),
            z: Fx(mvz_spec(a, b.y) as i64),
            w: Fx(mvw_spec(a, b.y) as i64),
        },
        z: Vec4 {
            x: Fx(mvx_spec(a, b.z) as i64),
            y: Fx(mvy_spec(a, b.z) as i64),
            z: Fx(mvz_spec(a, b.z) as i64),
            w: Fx(mvw_spec(a, b.z) as i64),
        },
        w: Vec4 {
            x: Fx(mvx_spec(a, b.w) as i64),
            y: Fx(mvy_spec(a, b.w) as i64),
            z: Fx(mvz_spec(a, b.w) as i64),
            w: Fx(mvw_spec(a, b.w) as i64),
        },
    }
}

/// The matrix product `a * b`, column by column.
pub fn mat_mul(a: &Mat4, b: &Mat4) -> (r: Mat4)
    requires
        a.bounded(MAT_LIM as int),
        b.bounded(MAT_LIM as int),
    ensures
        r == mat_mul_spec(*a, *b),
        r.x.x.to_int() == mvx_spec(*a, b.x) && r.x.y.to_int() == mvy_spec(*a, b.x) && r.x.z.to_int()
            == mvz_spec(*a, b.x) && r.x.w.to_int() == mvw_spec(*a, b.x),
        r.y.x.to_int() == mvx_spec(*a, b.y) && r.y.y.to_int() == mvy_spec(*a, b.y) && r.y.z.to_int()
            == mvz_spec(*a, b.y) && r.y.w.to_int() == mvw_spec(*a, b.y),
        r.z.x.to_int() == mvx_spec(*a, b.z) && r.z.y.to_int() == mvy_spec(*a, b.z) && r.z.z.to_int()
            == mvz_spec(*a, b.z) && r.z.w.to_int() == mvw_spec(*a, b.z),
        r.w.x.to_int() == mvx_spec(*a, b.w) && r.w.y.to_int() == mvy_spec(*a, b.w) && r.w.z.to_int()
            == mvz_spec(*a, b.w) && r.w.w.to_int() == mvw_spec(*a, b.w),
{
    Mat4 {
        x: mat_vec_mul(a, b.x),
        y: mat_vec_mul(a, b.y),
        z: mat_vec_mul(a, b.z),
        w: mat_vec_mul(a, b.w),
    }
}

/// A pure translation matrix.
pub fn from_translation(t: crate::vec3::Vec3) -> (r: Mat4)
    ensures
        r == from_translation_spec(t),
{
    Mat4 {
        x: Vec4 { x: Fx(65536), y: Fx(0), z: Fx(0), w: Fx(0) },
        y: Vec4 { x: Fx(0), y: Fx(65536), z: Fx(0), w: Fx(0) },
        z: Vec4 { x: Fx(0), y: Fx(0), z: Fx(65536), w: Fx(0) },
        w: Vec4 { x: t.0, y: t.1, z: t.2, w: Fx(65536) },
    }
}

/// A pure translation matrix.
pub open spec fn from_translation_spec(t: crate::vec3::Vec3) -> Mat4 {
    Mat4 {
        x: Vec4 { x: Fx(65536), y: Fx(0), z: Fx(0), w: Fx(0) },
        y: Vec4 { x: Fx(0), y: Fx(65536), z: Fx(0), w: Fx(0) },
        z: Vec4 { x: Fx(0), y: Fx(0), z: Fx(65536), w: Fx(0) },
        w: Vec4 { x: t.0, y: t.1, z: t.2, w: Fx(65536) },
    }
}

/// A uniform scale of the three spatial axes.
pub fn from_uniform_scale(k: Fx) -> (r: Mat4)
    ensures
        r == from_uniform_scale_spec(k),
{
    Mat4 {
        x: Vec4 { x: k, y: Fx(0), z: Fx(0), w: Fx(0) },
        y: Vec4 { x: Fx(0), y: k, z: Fx(0), w: Fx(0) },
        z: Vec4 { x: Fx(0), y: Fx(0), z: k, w: Fx(0) },
        w: Vec4 { x: Fx(0), y: Fx(0), z: Fx(0), w: Fx(65536) },
    }
}

/// A uniform scale of the three spatial axes.
pub open spec fn from_uniform_scale_spec(k: Fx) -> Mat4 {
    Mat4 {
        x: Vec4 { x: k, y: Fx(0), z: Fx(0), w: Fx(0) },
        y: Vec4 { x: Fx(0), y: k, z: Fx(0), w: Fx(0) },
        z: Vec4 { x: Fx(0), y: Fx(0), z: k, w: Fx(0) },
        w: Vec4 { x: Fx(0), y: Fx(0), z: Fx(0), w: Fx(65536) },
    }
}

/// Rotation about the x axis by an angle with the given sine and cosine.
pub open spec fn rot_x_spec(s: Fx, c: Fx) -> Mat4 {
    Mat4 {
        x: Vec4 { x: Fx(65536), y: Fx(0), z: Fx(0), w: Fx(0) },
        y: Vec4 { x: Fx(0), y: c, z: s, w: Fx(0) },
        z: Vec4 { x: Fx(0), y: Fx((-s.0) as i64), z: c, w: Fx(0) },
        w: Vec4 { x: Fx(0), y: Fx(0), z: Fx(0), w: Fx(65536) },
    }
}

/// Rotation about the y axis by an angle with the given sine and cosine.
pub open spec fn rot_y_spec(s: Fx, c: Fx) -> Mat4 {
    Mat4 {
        x: Vec4 { x: c, y: Fx(0), z: Fx((-s.0) as i64), w: Fx(0) },
        y: Vec4 { x: Fx(0), y: Fx(65536), z: Fx(0), w: Fx(0) },
        z: Vec4 { x: s, y: Fx(0), z: c, w: Fx(0) },
        w: Vec4 { x: Fx(0), y: Fx(0), z: Fx(0), w: Fx(65536) },
    }
}

/// Rotation about the z axis by an angle with the given sine and cosine.
pub open spec fn rot_z_spec(s: Fx, c: Fx) -> Mat4 {
    Mat4 {
        x: Vec4 { x: c, y: s, z: Fx(0), w: Fx(0) },
        y: Vec4 { x: Fx((-s.0) as i64), y: c, z: Fx(0), w: Fx(0) },
        z: Vec4 { x: Fx(0), y: Fx(0), z: Fx(65536), w: Fx(0) },
        w: Vec4 { x: Fx(0), y: Fx(0), z: Fx(0), w: Fx(65536) },
    }
}

/// Rotation about the x axis by the raw angle `a`.
pub fn rot_x(a: Fx) -> (r: Mat4)
    requires
        i64::MIN + 0x4_0000 < a.to_int() <= i64::MAX - 0x4_0000,
    ensures
        r == rot_x_spec(
            Fx(crate::trig::sin_spec(a.to_int()) as i64),
            Fx(crate::trig::cos_spec(a.to_int()) as i64),
        ),
        r.bounded(FX_SCALE as int),
{
    let s = crate::trig::sin_fx(a);
    let c = crate::trig::cos_fx(a);
    Mat4 {
        x: Vec4 { x: Fx(65536), y: Fx(0), z: Fx(0), w: Fx(0) },
        y: Vec4 { x: Fx(0), y: c, z: s, w: Fx(0) },
        z: Vec4 { x: Fx(0), y: Fx(-s.0), z: c, w: Fx(0) },
        w: Vec4 { x: Fx(0), y: Fx(0), z: Fx(0), w: Fx(65536) },
    }
}

/// Rotation about the y axis by the raw angle `a`.
pub fn rot_y(a: Fx) -> (r: Mat4)
    requires
        i64::MIN + 0x4_0000 < a.to_int() <= i64::MAX - 0x4_0000,
    ensures
        r == rot_y_spec(
            Fx(crate::trig::sin_spec(a.to_int()) as i64),
            Fx(crate::trig::cos_spec(a.to_int()) as i64),
        ),
        r.bounded(FX_SCALE as int),
{
    let s = crate::trig::sin_fx(a);
    let c = crate::trig::cos_fx(a);
    Mat4 {
        x: Vec4 { x: c, y: Fx(0), z: Fx(-s.0), w: Fx(0) },
        y: Vec4 { x: Fx(0), y: Fx(65536), z: Fx(0), w: Fx(0) },
        z: Vec4 { x: s, y: Fx(0), z: c, w: Fx(0) },
        w: Vec4 { x: Fx(0), y: Fx(0), z: Fx(0), w: Fx(65536) },
    }
}

/// Rotation about the z axis by the raw angle `a`.
pub fn rot_z(a: Fx) -> (r: Mat4)
    requires
        i64::MIN + 0x4_0000 < a.to_int() <= i64::MAX - 0x4_0000,
    ensures
        r == rot_z_spec(
            Fx(crate::trig::sin_spec(a.to_int()) as i64),
            Fx(crate::trig::cos_spec(a.to_int()) as i64),
        ),
        r.bounded(FX_SCALE as int),
{
    let s = crate::trig::sin_fx(a);
    let c = crate::trig::cos_fx(a);
    Mat4 {
        x: Vec4 { x: c, y: s, z: Fx(0), w: Fx(0) },
        y: Vec4 { x: Fx(-s.0), y: c, z: Fx(0), w: Fx(0) },
        z: Vec4 { x: Fx(0), y: Fx(0), z: Fx(65536), w: Fx(0) },
        w: Vec4 { x: Fx(0), y: Fx(0), z: Fx(0), w: Fx(65536) },
    }
}

/// Entry bounds propagate through a matrix-vector product: each result
/// entry is at most four truncated products of bounded factors.
pub proof fn lemma_mv_bound(m: Mat4, v: Vec4, bm: int, bv: int)
    requires
        m.bounded(bm),
        v.bounded(bv),
        0 <= bm,
        0 <= bv,
        bm * bv <= 0x1000_0000_0000_0000_0000,
    ensures
        -4 * ((bm * bv) / 65536) <= mvx_spec(m, v) <= 4 * ((bm * bv) / 65536),
        -4 * ((bm * bv) / 65536) <= mvy_spec(m, v) <= 4 * ((bm * bv) / 65536),
        -4 * ((bm * bv) / 65536) <= mvz_spec(m, v) <= 4 * ((bm * bv) / 65536),
        -4 * ((bm * bv) / 65536) <= mvw_spec(m, v) <= 4 * ((bm * bv) / 65536),
{
    lemma_fx_mul_spec_bound(m.x.x.to_int(), v.x.to_int(), bm, bv);
    lemma_fx_mul_spec_bound(m.y.x.to_int(), v.y.to_int(), bm, bv);
    lemma_fx_mul_spec_bound(m.z.x.to_int(), v.z.to_int(), bm, bv);
    lemma_fx_mul_spec_bound(m.w.x.to_int(), v.w.to_int(), bm, bv);
    lemma_fx_mul_spec_bound(m.x.y.to_int(), v.x.to_int(), bm, bv);
    lemma_fx_mul_spec_bound(m.y.y.to_int(), v.y.to_int(), bm, bv);
    lemma_fx_mul_spec_bound(m.z.y.to_int(), v.z.to_int(), bm, bv);
    lemma_fx_mul_spec_bound(m.w.y.to_int(), v.w.to_int(), bm, bv);
    lemma_fx_mul_spec_bound(m.x.z.to_int(), v.x.to_int(), bm, bv);
    lemma_fx_mul_spec_bound(m.y.z.to_int(), v.y.to_int(), bm, bv);
    lemma_fx_mul_spec_bound(m.z.z.to_int(), v.z.to_int(), bm, bv);
    lemma_fx_mul_spec_bound(m.w.z.to_int(), v.w.to_int(), bm, bv);
    lemma_fx_mul_spec_bound(m.x.w.to_int(), v.x.to_int(), bm, bv);
    lemma_fx_mul_spec_bound(m.y.w.to_int(), v.y.to_int(), bm, bv);
    lemma_fx_mul_spec_bound(m.z.w.to_int(), v.z.to_int(), bm, bv);
    lemma_fx_mul_spec_bound(m.w.w.to_int(), v.w.to_int(), bm, bv);
}

/// Entry bounds propagate through a matrix product.
pub proof fn lemma_mat_mul_bound(a: Mat4, b: Mat4, ba: int, bb: int)
    requires
        a.bounded(ba),
        b.bounded(bb),
        0 <= ba,
        0 <= bb,
        ba * bb <= 0x1000_0000_0000_0000_0000,
    ensures
        mat_mul_spec(a, b).bounded(4 * ((ba * bb) / 65536)),
{
    lemma_mv_bound(a, b.x, ba, bb);
    lemma_mv_bound(a, b.y, ba, bb);
    lemma_mv_bound(a, b.z, ba, bb);
    lemma_mv_bound(a, b.w, ba, bb);
    vstd::arithmetic::div_mod::lemma_div_is_ordered(ba * bb, 0x1000_0000_0000_0000_0000, 65536);
    assert(0x1000_0000_0000_0000_0000int / 65536int == 0x1000_0000_0000_0000int);
    vstd::arithmetic::mul::lemma_mul_nonnegative(ba, bb);
    vstd::arithmetic::div_mod::lemma_div_pos_is_pos(ba * bb, 65536);
}

} // verus!
