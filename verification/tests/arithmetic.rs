//! Fixed-point scalar and trigonometric primitives.

use mandelwow::Fx;
use mandelwow::fixed::isqrt64;
use mandelwow::trig::{sin_fx, cos_fx};
use mandelwow::vec3::{Vec3, norm};

#[test]
fn products_truncate_toward_zero() {
    // 1.5 * 1.5 = 2.25 exactly
    assert_eq!(Fx(98304).mul(Fx(98304)), Fx(147456));
    // (-1.5) * 1.5 truncates toward zero
    assert_eq!(Fx(-98304).mul(Fx(98304)), Fx(-147456));
    assert_eq!(Fx(3).mul(Fx(3)), Fx(0));
    assert_eq!(Fx(-3).mul(Fx(3)), Fx(0));
}

#[test]
fn quotients_truncate_toward_zero() {
    assert_eq!(Fx(65536).div(Fx(131072)), Fx(32768));
    assert_eq!(Fx(65536).div(Fx(3)), Fx(1431655765));
    assert_eq!(Fx(-65536).div(Fx(3)), Fx(-1431655765));
}

#[test]
fn whole_numbers_embed_exactly() {
    assert_eq!(Fx::whole(-2), Fx(-131072));
    assert_eq!(Fx::whole(0), Fx(0));
    assert_eq!(Fx::whole(3), Fx(196608));
}

#[test]
fn integer_square_roots() {
    assert_eq!(isqrt64(0), 0);
    assert_eq!(isqrt64(1), 1);
    assert_eq!(isqrt64(10), 3);
    assert_eq!(isqrt64(65536 * 65536), 65536);
    assert_eq!(isqrt64(u64::MAX), 0xFFFF_FFFF);
}

#[test]
fn sine_on_the_reference_angles() {
    assert_eq!(sin_fx(Fx(0)), Fx(0));
    // the quarter turn clamps to exactly 1.0
    assert_eq!(sin_fx(Fx(102944)), Fx(65536));
    assert_eq!(sin_fx(Fx(205888)), Fx(0));
    assert_eq!(sin_fx(Fx(308832)), Fx(-65536));
    // oddness
    assert_eq!(sin_fx(Fx(32768)), Fx(31420));
    assert_eq!(sin_fx(Fx(-32768)), Fx(-31420));
    assert_eq!(sin_fx(Fx(65536)), Fx(55160));
    assert_eq!(cos_fx(Fx(0)), Fx(65536));
}

#[test]
fn normalize_produces_unit_components() {
    let v = Vec3(Fx(0), Fx(0), Fx(-131072));
    let n = norm(&v);
    assert_eq!(n, Vec3(Fx(0), Fx(0), Fx(-65536)));
    let d = Vec3(Fx(65536), Fx(0), Fx(65536));
    let nd = norm(&d);
    // both components shrink to about 0.7071
    assert_eq!(nd.0, nd.2);
    assert!(46339 <= nd.0.0 && nd.0.0 <= 46341);
    assert_eq!(nd.1, Fx(0));
}
