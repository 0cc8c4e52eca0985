//! Mesh data of the unit cube the sea is built from.
//!
//! Eight corners of a half-unit cube around the origin, each carrying the
//! hand-picked per-vertex normal, plus the triangle index list; the host
//! uploads both unchanged and draws with backface culling.

use vstd::prelude::*;
use crate::fixed::Fx;
use crate::vec3::Vec3;

verus! {

/// A mesh vertex: a position and a shading normal.
#[derive(Clone, Copy, Debug, PartialEq, Eq, Structural)]
pub struct NormalVertex {
    pub position: Vec3,
    pub normal: Vec3,
}

/// The eight cube vertices: the front face first, then the back face.
pub open spec fn cube_vertex_spec() -> Seq<NormalVertex> {
    seq![
        NormalVertex {
            position: Vec3(Fx(-32768i64), Fx(-32768i64), Fx(32768)),
            normal: Vec3(Fx(0), Fx(0), Fx(-65536i64)),
        },
        NormalVertex {
            position: Vec3(Fx(32768), Fx(-32768i64), Fx(32768)),
            normal: Vec3(Fx(-65536i64), Fx(0), Fx(0)),
        },
        NormalVertex {
            position: Vec3(Fx(32768), Fx(32768), Fx(32768)),
            normal: Vec3(Fx(0), Fx(-65536i64), Fx(0)),
        },
        NormalVertex {
            position: Vec3(Fx(-32768i64), Fx(32768), Fx(32768)),
            normal: Vec3(Fx(65536), Fx(0), Fx(0)),
        },
        NormalVertex {
            position: Vec3(Fx(-32768i64), Fx(-32768i64), Fx(-32768i64)),
            normal: Vec3(Fx(0), Fx(65536), Fx(0)),
        },
        NormalVertex {
            position: Vec3(Fx(32768), Fx(-32768i64), Fx(-32768i64)),
            normal: Vec3(Fx(0), Fx(0), Fx(65536)),
        },
        NormalVertex {
            position: Vec3(Fx(32768), Fx(32768), Fx(-32768i64)),
            normal: Vec3(Fx(0), Fx(0), Fx(0)),
        },
        NormalVertex {
            position: Vec3(Fx(-32768i64), Fx(32768), Fx(-32768i64)),
            normal: Vec3(Fx(0), Fx(0), Fx(0)),
        },
    ]
}

/// The thirty-six triangle indices of the cube faces.
pub open spec fn cube_index_spec() -> Seq<u16> {
    seq![
        1u16, 2, 0, 2, 3, 0,
        5, 6, 1, 6, 2, 1,
        6, 7, 2, 7, 3, 2,
        4, 0, 3, 7, 4, 3,
        5, 1, 4, 1, 0, 4,
        7, 6, 5, 4, 7, 5,
    ]
}

/// Builds the cube's vertex list.
pub fn cube_vertices() -> (r: Vec<NormalVertex>)
    ensures
        r@ == cube_vertex_spec(),
        r.len() == 8,
{
    let mut v: Vec<NormalVertex> = Vec::new();
    v.push(NormalVertex {
        position: Vec3(Fx(-32768i64), Fx(-32768i64), Fx(32768)),
        normal: Vec3(Fx(0), Fx(0), Fx(-65536i64)),
    });
    v.push(NormalVertex {
        position: Vec3(Fx(32768), Fx(-32768i64), Fx(32768)),
        normal: Vec3(Fx(-65536i64), Fx(0), Fx(0)),
    });
    v.push(NormalVertex {
        position: Vec3(Fx(32768), Fx(32768), Fx(32768)),
        normal: Vec3(Fx(0), Fx(-65536i64), Fx(0)),
    });
    v.push(NormalVertex {
        position: Vec3(Fx(-32768i64), Fx(32768), Fx(32768)),
        normal: Vec3(Fx(65536), Fx(0), Fx(0)),
    });
    v.push(NormalVertex {
        position: Vec3(Fx(-32768i64), Fx(-32768i64), Fx(-32768i64)),
        normal: Vec3(Fx(0), Fx(65536), Fx(0)),
    });
    v.push(NormalVertex {
        position: Vec3(Fx(32768), Fx(-32768i64), Fx(-32768i64)),
        normal: Vec3(Fx(0), Fx(0), Fx(65536)),
    });
    v.push(NormalVertex {
        position: Vec3(Fx(32768), Fx(32768), Fx(-32768i64)),
        normal: Vec3(Fx(0), Fx(0), Fx(0)),
    });
    v.push(NormalVertex {
        position: Vec3(Fx(-32768i64), Fx(32768), Fx(-32768i64)),
        normal: Vec3(Fx(0), Fx(0), Fx(0)),
    });
    proof {
        assert(v@ =~= cube_vertex_spec());
    }
    v
}

/// Builds the cube's triangle index list.
pub fn cube_indices() -> (r: Vec<u16>)
    ensures
        r@ == cube_index_spec(),
        r.len() == 36,
{
    let data: [u16; 36] = [
        1, 2, 0, 2, 3, 0,
        5, 6, 1, 6, 2, 1,
        6, 7, 2, 7, 3, 2,
        4, 0, 3, 7, 4, 3,
        5, 1, 4, 1, 0, 4,
        7, 6, 5, 4, 7, 5,
    ];
    let mut v: Vec<u16> = Vec::new();
    let mut i: usize = 0;
    while i < 36
        invariant
            i <= 36,
            v.len() == i,
            data@ =~= cube_index_spec(),
            forall|j: int| 0 <= j < i ==> v@[j] == cube_index_spec()[j],
        decreases 36 - i,
    {
        v.push(data[i]);
        i = i + 1;
    }
    proof {
        assert(v@ =~= cube_index_spec());
    }
    v
}

} // verus!
