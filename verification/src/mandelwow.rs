//! The fractal slicer.
//!
//! Every frame, the continuous 4-D bounded region is cut into a stack of
//! 2-D quads: for `zres` requested slices, `zres + 1` quads are laid out at
//! depths `zmin`, `zmin + zstep`, ..., reaching the far face of the bounds
//! (the inclusive upper index is deliberate; with exact arithmetic the last
//! depth is `zmax` less the division remainder, so it lies within `zres`
//! raw units of the far face).  Each quad spans the full x/y extent of the
//! bounds as a six-vertex triangle strip and carries the pair
//! `(wow, depth)` that seeds the per-pixel evaluator.

use vstd::prelude::*;
use vstd::math::abs;
use vstd::arithmetic::div_mod::{
    lemma_fundamental_div_mod,
    lemma_mod_division_less_than_divisor,
    lemma_div_pos_is_pos,
};
use vstd::arithmetic::mul::lemma_mul_inequality;
use crate::fixed::{Fx, trunc_div};
use crate::cube::Cube;
use crate::vec3::Vec3;
use crate::mandel::Color3;

verus! {

/// Largest admitted raw magnitude of a bounds coordinate.
pub const SLICE_LIM: i64 = 0x100_0000_0000;

/// One vertex of a slice quad: a position and a flat color attribute.
#[derive(Clone, Copy, Debug, PartialEq, Eq, Structural)]
pub struct SliceVertex {
    pub position: Vec3,
    pub color: Color3,
}

/// One slice: a quad at depth `z`, seeded with the 4-D pair `(wow, z)`.
#[derive(Debug)]
pub struct Slice {
    pub wow: Fx,
    pub z: Fx,
    pub vertices: Vec<SliceVertex>,
}

/// The flat color every slice quad carries.
pub open spec fn quad_color_spec() -> Color3 {
    Color3 { r: Fx(0), g: Fx(0), b: Fx(65536) }
}

/// The six strip vertices of the quad spanning the x/y extent of `b` at
/// depth `z`: left edge first, then the right edge, then a degenerate tail
/// closing the strip.
pub open spec fn slice_quad_spec(b: Cube, z: Fx) -> Seq<SliceVertex> {
    let c = quad_color_spec();
    seq![
        SliceVertex { position: Vec3(b.xmin, b.ymax, z), color: c },
        SliceVertex { position: Vec3(b.xmin, b.ymin, z), color: c },
        SliceVertex { position: Vec3(b.xmax, b.ymax, z), color: c },
        SliceVertex { position: Vec3(b.xmax, b.ymin, z), color: c },
        SliceVertex { position: Vec3(b.xmax, b.ymin, z), color: c },
        SliceVertex { position: Vec3(b.xmin, b.ymin, z), color: c },
    ]
}

/// Builds the six-vertex strip of one slice quad.
pub fn slice_quad(b: &Cube, z: Fx) -> (r: Vec<SliceVertex>)
    ensures
        r@ == slice_quad_spec(*b, z),
        r.len() == 6,
{
    let c = Color3 { r: Fx(0), g: Fx(0), b: Fx(65536) };
    let mut v: Vec<SliceVertex> = Vec::new();
    v.push(SliceVertex { position: Vec3(b.xmin, b.ymax, z), color: c });
    v.push(SliceVertex { position: Vec3(b.xmin, b.ymin, z), color: c });
    v.push(SliceVertex { position: Vec3(b.xmax, b.ymax, z), color: c });
    v.push(SliceVertex { position: Vec3(b.xmax, b.ymin, z), color: c });
    v.push(SliceVertex { position: Vec3(b.xmax, b.ymin, z), color: c });
    v.push(SliceVertex { position: Vec3(b.xmin, b.ymin, z), color: c });
    proof {
        assert(v@ =~= slice_quad_spec(*b, z));
    }
    v
}

/// The signed depth step between consecutive slices: the z extent divided
/// by the requested slice count, truncated toward zero.
pub open spec fn zstep_spec(b: Cube, zres: int) -> int {
    trunc_div(b.zmax.to_int() - b.zmin.to_int(), zres)
}

/// The depth of slice `i`.
pub open spec fn slice_z_spec(b: Cube, zres: int, i: int) -> int {
    b.zmin.to_int() + i * zstep_spec(b, zres)
}

/// Cuts the bounds into `zres + 1` quads along the depth axis, each seeded
/// with `(wow, depth)`.  Quads are emitted in increasing slice order, so
/// for a well-formed bounds box they run front face to far face and can be
/// composited in a fixed depth order.
pub fn slice_stack(b: &Cube, wow: Fx, zres: u32) -> (r: Vec<Slice>)
    requires
        1 <= zres <= 100000,
        b.bounded(SLICE_LIM as int),
    ensures
        r.len() == zres + 1,
        forall|i: int|
            0 <= i <= zres ==> (#[trigger] r@[i]).z.to_int() == slice_z_spec(*b, zres as int, i),
        forall|i: int| 0 <= i <= zres ==> (#[trigger] r@[i]).wow == wow,
        forall|i: int|
            0 <= i <= zres ==> (#[trigger] r@[i]).vertices@ == slice_quad_spec(*b, r@[i].z),
        b.wf() ==> b.zmax.to_int() - zres <= r@[zres as int].z.to_int() <= b.zmax.to_int(),
{
    let diff: Fx = b.zmax.sub(b.zmin);
    let zstep: Fx = if diff.0 >= 0 {
        Fx(((diff.0 as u64) / (zres as u64)) as i64)
    } else {
        Fx(-((((-diff.0) as u64) / (zres as u64)) as i64))
    };
    let ghost n = zres as int;
    let ghost zs = zstep.to_int();
    proof {
        lemma_zstep_bounds(diff.to_int(), n);
        assert(zs == zstep_spec(*b, n));
    }
    let mut out: Vec<Slice> = Vec::new();
    let mut zcur: Fx = b.zmin;
    let mut i: u32 = 0;
    while i <= zres
        invariant
            0 <= i <= zres + 1,
            out.len() == i,
            1 <= zres <= 100000,
            b.bounded(SLICE_LIM as int),
            n == zres as int,
            zs == zstep.to_int(),
            zs == zstep_spec(*b, n),
            -2 * (SLICE_LIM as int) <= zs <= 2 * (SLICE_LIM as int),
            -2 * (SLICE_LIM as int) <= n * zs <= 2 * (SLICE_LIM as int),
            zcur.to_int() == slice_z_spec(*b, n, i as int),
            forall|j: int|
                0 <= j < i ==> (#[trigger] out@[j]).z.to_int() == slice_z_spec(*b, n, j),
            forall|j: int| 0 <= j < i ==> (#[trigger] out@[j]).wow == wow,
            forall|j: int|
                0 <= j < i ==> (#[trigger] out@[j]).vertices@ == slice_quad_spec(*b, out@[j].z),
        decreases zres + 1 - i,
    {
        let verts = slice_quad(b, zcur);
        out.push(Slice { wow, z: zcur, vertices: verts });
        proof {
            lemma_accum_bound(zs, n, i as int + 1);
            vstd::arithmetic::mul::lemma_mul_is_distributive_add_other_way(zs, i as int, 1);
            assert(1 * zs == zs) by (nonlinear_arith);
        }
        zcur = zcur.add(zstep);
        i = i + 1;
    }
    proof {
        if b.wf() {
            let d = b.zmax.to_int() - b.zmin.to_int();
            lemma_fundamental_div_mod(d, n);
            lemma_mod_division_less_than_divisor(d, n);
            assert(out@[n].z.to_int() == b.zmin.to_int() + n * zs);
            assert(d == n * (d / n) + d % n);
            assert(n * zs == d - d % n);
        }
    }
    out
}

/// The per-slice step and its total accumulation both stay within twice the
/// coordinate limit: truncation toward zero only loses magnitude.
proof fn lemma_zstep_bounds(diff: int, n: int)
    requires
        n >= 1,
        -2 * 0x100_0000_0000 <= diff <= 2 * 0x100_0000_0000,
    ensures
        -2 * 0x100_0000_0000 <= trunc_div(diff, n) <= 2 * 0x100_0000_0000,
        -2 * 0x100_0000_0000 <= n * trunc_div(diff, n) <= 2 * 0x100_0000_0000,
{
    let zs = trunc_div(diff, n);
    if diff >= 0 {
        lemma_fundamental_div_mod(diff, n);
        lemma_mod_division_less_than_divisor(diff, n);
        lemma_div_pos_is_pos(diff, n);
        assert(n * zs <= diff);
        assert(zs <= n * zs) by (nonlinear_arith)
            requires
                n >= 1,
                zs >= 0,
        ;
        assert(0 <= n * zs) by (nonlinear_arith)
            requires
                n >= 1,
                zs >= 0,
        ;
    } else {
        let m = -diff;
        lemma_fundamental_div_mod(m, n);
        lemma_mod_division_less_than_divisor(m, n);
        lemma_div_pos_is_pos(m, n);
        let q = m / n;
        assert(zs == -q);
        assert(n * q <= m);
        assert(q <= n * q && 0 <= n * q) by (nonlinear_arith)
            requires
                n >= 1,
                q >= 0,
        ;
        assert(n * zs == -(n * q)) by (nonlinear_arith)
            requires
                zs == -q,
        ;
    }
}

/// A partial accumulation `i * zs` stays within twice the total bound.
proof fn lemma_accum_bound(zs: int, n: int, i: int)
    requires
        n >= 1,
        0 <= i <= n + 1,
        -2 * 0x100_0000_0000 <= zs <= 2 * 0x100_0000_0000,
        -2 * 0x100_0000_0000 <= n * zs <= 2 * 0x100_0000_0000,
    ensures
        -4 * 0x100_0000_0000 <= i * zs <= 4 * 0x100_0000_0000,
{
    assert(-4 * 0x100_0000_0000 <= i * zs <= 4 * 0x100_0000_0000) by (nonlinear_arith)
        requires
            n >= 1,
            0 <= i <= n + 1,
            -2 * 0x100_0000_0000 <= zs <= 2 * 0x100_0000_0000,
            -2 * 0x100_0000_0000 <= n * zs <= 2 * 0x100_0000_0000,
    ;
}

} // verus!
