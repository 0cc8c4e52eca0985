//! Timer pause invariant, monotonicity and external sync.

use mandelwow::Fx;
use mandelwow::timer::{Timer, SyncEvent};

#[test]
fn paused_updates_change_nothing() {
    let mut tm = Timer::new();
    tm.update(Fx(1000));
    tm.toggle_pause();
    assert!(tm.pause);
    let t_before = tm.t;
    let frame_before = tm.frame;
    for _ in 0..5 {
        tm.update(Fx(1000));
    }
    assert_eq!(tm.t, t_before);
    assert_eq!(tm.frame, frame_before);
}

#[test]
fn running_time_is_monotone() {
    let mut tm = Timer::new();
    let mut last = tm.t.0;
    for _ in 0..10 {
        tm.update(Fx(273));
        assert!(tm.t.0 >= last);
        last = tm.t.0;
    }
    assert_eq!(tm.t, Fx(2730));
    assert_eq!(tm.frame, 10);
}

#[test]
fn nudge_scrubs_both_ways() {
    let mut tm = Timer::new();
    tm.nudge(Fx(655));
    assert_eq!(tm.t, Fx(655));
    tm.nudge(Fx(-1000));
    assert_eq!(tm.t, Fx(-345));
}

#[test]
fn seek_overrides_time() {
    let mut tm = Timer::new();
    tm.update(Fx(12345));
    tm.seek(Fx(65536));
    assert_eq!(tm.t, Fx(65536));
}

#[test]
fn row_mapping_round_trip() {
    let mut tm = Timer::new();
    tm.seek(Fx(65536));
    // one second of simulation time is ten timeline rows
    assert_eq!(tm.current_row(), 10);
    tm.apply_sync_event(SyncEvent::SetRow(25));
    assert_eq!(tm.t, Fx(163840));
    assert_eq!(tm.current_row(), 25);
    // the other editor events carry nothing for the clock
    let before = tm;
    tm.apply_sync_event(SyncEvent::Pause(true));
    tm.apply_sync_event(SyncEvent::SaveTracks);
    assert_eq!(tm, before);
}

#[test]
fn report_fires_after_interval() {
    let mut tm = Timer::new();
    for _ in 0..7 {
        tm.update(Fx(100));
    }
    assert_eq!(tm.maybe_report(1_000_000), None);
    let r = tm.maybe_report(6_000_000);
    assert_eq!(r, Some((7, 6_000_000)));
    // the accumulator reset: nothing new to report yet
    assert_eq!(tm.maybe_report(7_000_000), None);
}
