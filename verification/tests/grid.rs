//! The 2-D escape-time plane grid.

use mandelwow::Fx;
use mandelwow::mandel::{mandel_grid, mand};

#[test]
fn one_by_one_grid_is_a_single_strip() {
    // the stock 2-D plane over x in [-1.3, 0.7], y in [-1, 1]
    let xmin = Fx(-85197);
    let xmax = Fx(45875);
    let ymin = Fx(-65536);
    let ymax = Fx(65536);
    let v = mandel_grid(xmin, xmax, ymin, ymax, 1, 1);
    assert_eq!(v.len(), 6);
    let xstep: i64 = 45875 - (-85197);
    let ystep: i64 = 131072;
    // leading edge pair
    assert_eq!(v[0].position.0, xmin);
    assert_eq!(v[0].position.1, Fx(-65536 + ystep));
    assert_eq!(v[0].position.2, Fx(65536));
    assert_eq!(v[1].position.0, xmin);
    assert_eq!(v[1].position.1, ymin);
    // the column pair carries the palette sample of the lower-left corner
    let c = mand(xmin, ymin);
    assert_eq!(v[2].color, c);
    assert_eq!(v[3].color, c);
    assert_eq!(v[2].position.0, Fx(-85197 + xstep));
    assert_eq!(v[2].position.1, Fx(-65536 + ystep));
    assert_eq!(v[3].position.0, Fx(-85197 + xstep));
    assert_eq!(v[3].position.1, ymin);
    // the degenerate tail closes the strip one step past the last column
    assert_eq!(v[4].position.0, Fx(-85197 + 2 * xstep));
    assert_eq!(v[4].position.1, ymin);
    assert_eq!(v[5], v[4]);
}

#[test]
fn grid_row_stride_and_count() {
    let v = mandel_grid(Fx(-65536), Fx(65536), Fx(-65536), Fx(65536), 3, 2);
    // (2 * xres + 4) vertices per row, yres rows
    assert_eq!(v.len(), 20);
    // rows advance by the y step
    assert_eq!(v[1].position.1, Fx(-65536));
    assert_eq!(v[11].position.1, Fx(0));
}
