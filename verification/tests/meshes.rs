//! Static geometry data and the frame-loop driver.

use mandelwow::Fx;
use mandelwow::cube::Cube;
use mandelwow::bounding_box::{corner_vertices, edge_indices};
use mandelwow::shaded_cube::{cube_vertices, cube_indices};
use mandelwow::support::{start_loop, set_main_loop_callback, Action};

#[test]
fn box_corners_of_unit_cube() {
    let c = Cube::default();
    let v = corner_vertices(&c);
    assert_eq!(v.len(), 8);
    assert_eq!(v[0].0, Fx(-32768));
    assert_eq!(v[0].1, Fx(-32768));
    assert_eq!(v[0].2, Fx(-32768));
    assert_eq!(v[6].0, Fx(32768));
    assert_eq!(v[6].1, Fx(32768));
    assert_eq!(v[6].2, Fx(32768));
}

#[test]
fn box_edges_pair_all_corners() {
    let idx = edge_indices();
    assert_eq!(
        idx,
        vec![
            0u16, 1, 1, 2, 2, 3, 3, 0, 4, 5, 5, 6, 6, 7, 7, 4, 0, 4, 1, 5, 2, 6, 3, 7,
        ]
    );
}

#[test]
fn shaded_cube_mesh() {
    let v = cube_vertices();
    assert_eq!(v.len(), 8);
    assert_eq!(v[0].position.0, Fx(-32768));
    assert_eq!(v[0].position.2, Fx(32768));
    assert_eq!(v[0].normal.2, Fx(-65536));
    let idx = cube_indices();
    assert_eq!(idx.len(), 36);
    assert_eq!(&idx[0..6], &[1u16, 2, 0, 2, 3, 0]);
    assert_eq!(&idx[30..36], &[7u16, 6, 5, 4, 7, 5]);
}

#[test]
fn loop_runs_until_stop() {
    let mut count = 0u32;
    start_loop(|| {
        count += 1;
        if count == 3 {
            Action::Stop
        } else {
            Action::Continue
        }
    });
    assert_eq!(count, 3);
}

#[test]
fn main_loop_callback_drives_the_loop() {
    let mut frames = 0u32;
    set_main_loop_callback(|| {
        frames += 1;
        if frames >= 5 {
            Action::Stop
        } else {
            Action::Continue
        }
    });
    assert_eq!(frames, 5);
}
