//! Slicer fencepost and quad layout.

use mandelwow::Fx;
use mandelwow::cube::Cube;
use mandelwow::mandelwow::{slice_quad, slice_stack};
use mandelwow::scene::mandelwow_bounds;

#[test]
fn thirty_slices_make_thirty_one_quads() {
    let b = mandelwow_bounds();
    let s = slice_stack(&b, Fx(0), 30);
    assert_eq!(s.len(), 31);
    // the z extent of the stock bounds divides evenly, so the ladder
    // hits both faces exactly
    assert_eq!(s[0].z, Fx(-72090));
    assert_eq!(s[30].z, Fx(72090));
    let step = (72090 + 72090) / 30;
    for (i, slice) in s.iter().enumerate() {
        assert_eq!(slice.z, Fx(-72090 + (i as i64) * step));
        assert_eq!(slice.wow, Fx(0));
        assert_eq!(slice.vertices.len(), 6);
    }
}

#[test]
fn slice_depths_are_increasing() {
    let b = mandelwow_bounds();
    let s = slice_stack(&b, Fx(12345), 7);
    for w in s.windows(2) {
        assert!(w[0].z.0 < w[1].z.0);
    }
}

#[test]
fn last_slice_reaches_far_face_within_tolerance() {
    // an extent that does not divide evenly: the last depth falls short of
    // the far face by the division remainder, which is below the slice
    // count in raw units
    let b = Cube {
        xmin: Fx(-65536),
        xmax: Fx(65536),
        ymin: Fx(-65536),
        ymax: Fx(65536),
        zmin: Fx(-72089),
        zmax: Fx(72089),
    };
    let n = 30u32;
    let s = slice_stack(&b, Fx(0), n);
    assert_eq!(s.len(), (n + 1) as usize);
    let last = s[n as usize].z.0;
    assert!(last <= 72089);
    assert!(72089 - last < n as i64);
    assert_eq!(last, 72061);
}

#[test]
fn quad_spans_the_xy_extent() {
    let b = mandelwow_bounds();
    let q = slice_quad(&b, Fx(4242));
    assert_eq!(q.len(), 6);
    assert_eq!(q[0].position.0, b.xmin);
    assert_eq!(q[0].position.1, b.ymax);
    assert_eq!(q[1].position.0, b.xmin);
    assert_eq!(q[1].position.1, b.ymin);
    assert_eq!(q[2].position.0, b.xmax);
    assert_eq!(q[2].position.1, b.ymax);
    assert_eq!(q[3].position.0, b.xmax);
    assert_eq!(q[3].position.1, b.ymin);
    assert_eq!(q[4], q[3]);
    assert_eq!(q[5], q[1]);
    for v in q.iter() {
        assert_eq!(v.position.2, Fx(4242));
        assert_eq!(v.color.b, Fx(65536));
    }
}
