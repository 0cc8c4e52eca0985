//! Escape-time evaluator behavior on known points.

use mandelwow::Fx;
use mandelwow::mandel::{escape_time, mand, eval_color, Color3};

#[test]
fn origin_never_escapes() {
    // the fractal's origin survives the whole iteration budget
    let r = escape_time(Fx(0), Fx(0), Fx(0), Fx(0));
    assert_eq!(r, None);
}

#[test]
fn far_point_escapes_at_first_check() {
    // c = (3, 3), seeded at itself, fails the very first bailout check
    let three = Fx(196608);
    let r = escape_time(three, three, three, three);
    assert_eq!(r, Some(1));
}

#[test]
fn escape_index_is_deterministic() {
    let cx = Fx(-49152);
    let cy = Fx(16384);
    let a = escape_time(cx, cy, Fx(0), Fx(0));
    let b = escape_time(cx, cy, Fx(0), Fx(0));
    assert_eq!(a, b);
    assert_eq!(a, Some(14));
}

#[test]
fn mand_colors_origin_black() {
    let c = mand(Fx(0), Fx(0));
    assert_eq!(c, Color3 { r: Fx(0), g: Fx(0), b: Fx(0) });
}

#[test]
fn mand_colors_immediate_escape_bright() {
    let three = Fx(196608);
    let c = mand(three, three);
    // escape at check 1: red channel is (65 - 1) / 64 = 1.0
    assert_eq!(c, Color3 { r: Fx(65536), g: Fx(65536), b: Fx(65536) });
}

#[test]
fn eval_color_escaped_alpha_tracks_index() {
    let three = Fx(196608);
    let c = eval_color(three, three, three, three);
    assert_eq!(c.a, Fx(1024));
    assert_eq!(c.r, Fx(65536));
}

#[test]
fn eval_color_inside_is_opaque() {
    let c = eval_color(Fx(0), Fx(0), Fx(0), Fx(0));
    assert_eq!(c.a, Fx(65536));
    // the decorative field of the zero coordinates is mid-gray-ish:
    // (sin(0) + 1) / 2 = 0.5 per channel
    assert_eq!(c.r, Fx(32768));
    assert_eq!(c.g, Fx(32768));
    assert_eq!(c.b, Fx(32768));
}
