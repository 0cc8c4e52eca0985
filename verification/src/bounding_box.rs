//! Wireframe geometry of the bounding volume.
//!
//! The box is drawn as twelve line segments over the eight corners of the
//! bounds; the host uploads the corner positions and the edge index pairs
//! as-is.

use vstd::prelude::*;
use crate::fixed::Fx;
use crate::cube::Cube;
use crate::vec3::Vec3;

verus! {

/// The eight corners of `c`, in the fixed order the edge list refers to:
/// the four near-face corners counterclockwise, then the four far-face
/// corners.
pub open spec fn corner_spec(c: Cube) -> Seq<Vec3> {
    seq![
        Vec3(c.xmin, c.ymin, c.zmin),
        Vec3(c.xmax, c.ymin, c.zmin),
        Vec3(c.xmax, c.ymax, c.zmin),
        Vec3(c.xmin, c.ymax, c.zmin),
        Vec3(c.xmin, c.ymin, c.zmax),
        Vec3(c.xmax, c.ymin, c.zmax),
        Vec3(c.xmax, c.ymax, c.zmax),
        Vec3(c.xmin, c.ymax, c.zmax),
    ]
}

/// The index pairs of the twelve box edges: the near face, the far face,
/// and the four side edges joining them.
pub open spec fn edge_index_spec() -> Seq<u16> {
    seq![
        0u16, 1, 1, 2, 2, 3, 3, 0,
        4, 5, 5, 6, 6, 7, 7, 4,
        0, 4, 1, 5, 2, 6, 3, 7,
    ]
}

/// Builds the corner vertices of the box.
pub fn corner_vertices(c: &Cube) -> (r: Vec<Vec3>)
    ensures
        r@ == corner_spec(*c),
        r.len() == 8,
{
    let mut v: Vec<Vec3> = Vec::new();
    v.push(Vec3(c.xmin, c.ymin, c.zmin));
    v.push(Vec3(c.xmax, c.ymin, c.zmin));
    v.push(Vec3(c.xmax, c.ymax, c.zmin));
    v.push(Vec3(c.xmin, c.ymax, c.zmin));
    v.push(Vec3(c.xmin, c.ymin, c.zmax));
    v.push(Vec3(c.xmax, c.ymin, c.zmax));
    v.push(Vec3(c.xmax, c.ymax, c.zmax));
    v.push(Vec3(c.xmin, c.ymax, c.zmax));
    proof {
        assert(v@ =~= corner_spec(*c));
    }
    v
}

/// Builds the edge index list of the box.
pub fn edge_indices() -> (r: Vec<u16>)
    ensures
        r@ == edge_index_spec(),
        r.len() == 24,
{
    let mut v: Vec<u16> = Vec::new();
    v.push(0);
    v.push(1);
    v.push(1);
    v.push(2);
    v.push(2);
    v.push(3);
    v.push(3);
    v.push(0);
    v.push(4);
    v.push(5);
    v.push(5);
    v.push(6);
    v.push(6);
    v.push(7);
    v.push(7);
    v.push(4);
    v.push(0);
    v.push(4);
    v.push(1);
    v.push(5);
    v.push(2);
    v.push(6);
    v.push(3);
    v.push(7);
    proof {
        assert(v@ =~= edge_index_spec());
    }
    v
}

} // verus!
