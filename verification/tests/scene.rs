//! Animation scalars, sea geometry and whole-frame composition.

use mandelwow::Fx;
use mandelwow::scene::{
    wow, hit_scale, HitState, trigger_time_of_samples, model_transform, sea_cells,
    mandelwow_bounds, compose_frame, WOW_MIN, WOW_MAX,
};
use mandelwow::camera::CameraState;
use mandelwow::mandel::escape_time;

#[test]
fn wow_stays_in_range_over_many_periods() {
    let mut t: i64 = -40_000_000;
    while t < 40_000_000 {
        let w = wow(Fx(t));
        assert!(WOW_MIN <= w.0 && w.0 <= WOW_MAX);
        t += 377_771;
    }
}

#[test]
fn wow_known_values() {
    assert_eq!(wow(Fx(0)), Fx(0));
    assert_eq!(wow(Fx(65536)), Fx(33776));
    assert_eq!(wow(Fx(-393216)), Fx(45710));
}

#[test]
fn hit_scale_peaks_at_two_and_decays_to_one() {
    // at the hit instant the pulse is exactly 2.0
    assert_eq!(hit_scale(Fx(131072), Fx(131072)), Fx(131072));
    // one second later it has mostly decayed
    assert_eq!(hit_scale(Fx(65536), Fx(0)), Fx(69632));
    // ten seconds later it is within a whisker of 1.0
    assert_eq!(hit_scale(Fx(655360), Fx(0)), Fx(65579));
    // very far away it is exactly 1.0
    assert_eq!(hit_scale(Fx(40_000_000), Fx(0)), Fx(65536));
}

#[test]
fn hit_state_tracks_new_triggers() {
    let mut h = HitState::new();
    h.note(Fx(100), Fx(5000));
    assert_eq!(h.hit_time, Fx(5000));
    assert_eq!(h.last_hit, Fx(100));
    // a stale trigger does not move the hit time
    h.note(Fx(100), Fx(9000));
    assert_eq!(h.hit_time, Fx(5000));
    h.note(Fx(200), Fx(9000));
    assert_eq!(h.hit_time, Fx(9000));
}

#[test]
fn trigger_time_converts_sample_counts() {
    assert_eq!(trigger_time_of_samples(0), Fx(0));
    assert_eq!(trigger_time_of_samples(48000), Fx(65536));
    assert_eq!(trigger_time_of_samples(24000), Fx(32768));
}

#[test]
fn model_transform_at_rest_is_the_push_back() {
    // t = 0 and a unit pulse: every rotation angle is zero and the scale is
    // one, leaving the pure translation
    let m = model_transform(Fx(0), Fx(65536));
    assert_eq!(m.x.x, Fx(65536));
    assert_eq!(m.y.y, Fx(65536));
    assert_eq!(m.z.z, Fx(65536));
    assert_eq!(m.w.w, Fx(65536));
    assert_eq!(m.w.x, Fx(0));
    assert_eq!(m.w.y, Fx(0));
    assert_eq!(m.w.z, Fx(-196608));
    assert_eq!(m.x.y, Fx(0));
    assert_eq!(m.z.x, Fx(0));
}

#[test]
fn sea_grid_layout_and_calm_water() {
    let cells = sea_cells(Fx(0));
    assert_eq!(cells.len(), 1000);
    // cube (0, 0): resting position, calm wave, pure mid-green water
    let c0 = &cells[0];
    assert_eq!(c0.pos.0, Fx(-1310720));
    assert_eq!(c0.pos.1, Fx(-163840));
    assert_eq!(c0.pos.2, Fx(-131072));
    assert_eq!(c0.color.g, Fx(32768));
    assert_eq!(c0.color.b, Fx(0));
    assert_eq!(c0.ch, 0);
    // cube (1, 0) sits one unit to the right and shows the next character
    let c25 = &cells[25];
    assert_eq!(c25.pos.0, Fx(-1245184));
    assert_eq!(c25.pos.2, Fx(-131072));
    assert_eq!(c25.ch, 1);
    // cube (0, 1) sits one unit deeper
    let c1 = &cells[1];
    assert_eq!(c1.pos.0, Fx(-1310720));
    assert_eq!(c1.pos.2, Fx(-196608));
    assert_eq!(c1.ch, 40);
    // a wavy cell: exact truncated-sine height and colors
    let c = &cells[3 * 25 + 4];
    assert_eq!(c.pos.1, Fx(-163840 + 37837));
    assert_eq!(c.color.g, Fx(13849));
    assert_eq!(c.color.b, Fx(37837));
}

#[test]
fn full_frame_scenario() {
    // the end-to-end composition over the stock bounds
    let cam = CameraState::new();
    let bounds = mandelwow_bounds();
    let fs = compose_frame(&cam, Fx(0), Fx(0), &bounds, 30);
    assert_eq!(fs.slices.len(), 31);
    assert_eq!(fs.slices[0].z, Fx(-72090));
    assert_eq!(fs.slices[30].z, Fx(72090));
    assert_eq!(fs.wow, Fx(0));
    // time equals the hit time, so the pulse is at its peak
    assert_eq!(fs.hit_scale, Fx(131072));
    assert_eq!(fs.sea.len(), 1000);
    assert_eq!(fs.view, cam.get_view());
    assert_eq!(fs.perspective, cam.get_perspective());
    // the first slice seeds the evaluator with (wow, zmin); under the
    // additive bailout this seed's orbit leaves the radius at check four
    let r = escape_time(Fx(0), Fx(0), fs.wow, fs.slices[0].z);
    assert_eq!(r, Some(4));
}
