//! The simulation clock.
//!
//! The timer advances in real-time mode: the caller measures the wall-clock
//! frame delta and hands it to `update`, which adds it to the simulation
//! time unless the clock is paused (this is the one explicit mode choice;
//! a caller that always passes the same delta gets the deterministic
//! fixed-step behavior).  Simulation time saturates at `T_LIM` raw units
//! and never moves on its own: `nudge` scrubs it manually and `seek` snaps
//! it to an externally authored timeline position, which is authoritative
//! when such a source is connected.  The reporting accumulator is
//! diagnostics only: it counts frames and wall microseconds between
//! reports.

use vstd::prelude::*;
use crate::fixed::Fx;

verus! {

/// Saturation bound of the simulation time, in raw units.
pub const T_LIM: i64 = 0x4000_0000_0000;

/// Timeline rows per second of simulation time, for the external sync
/// protocol.
pub const ROWS_PER_SECOND: i64 = 10;

/// Wall microseconds between two diagnostic reports.
pub const REPORT_INTERVAL_MICROS: u64 = 5000000;

/// An event from the external timeline editor.
#[derive(Clone, Copy, Debug, PartialEq, Eq, Structural)]
pub enum SyncEvent {
    SetRow(u32),
    Pause(bool),
    SaveTracks,
}

/// The frame timer: simulation time, frame counter, pause flag, and the
/// diagnostic reporting accumulator.
#[derive(Clone, Copy, Debug, PartialEq, Eq, Structural)]
pub struct Timer {
    /// Simulation time in seconds; starts at 0 and does not advance while
    /// paused.
    pub t: Fx,
    /// Frames simulated; does not increment while paused.
    pub frame: u32,
    /// While set, `update` leaves the simulation untouched.
    pub pause: bool,
    /// Frame count at the last diagnostic report.
    pub last_report_frame: u32,
    /// Wall time of the last diagnostic report, in microseconds.
    pub last_report_micros: u64,
}

impl Timer {
    /// The timer invariant: time within the saturation range, and the
    /// report marker not ahead of the frame counter.
    pub open spec fn wf(self) -> bool {
        &&& -T_LIM <= self.t.to_int() <= T_LIM
        &&& self.last_report_frame <= self.frame
    }

    /// A fresh timer: time zero, frame zero, running.
    pub fn new() -> (tm: Timer)
        ensures
            tm.t.to_int() == 0,
            tm.frame == 0,
            !tm.pause,
            tm.last_report_frame == 0,
            tm.last_report_micros == 0,
            tm.wf(),
    {
        Timer { t: Fx(0), frame: 0, pause: false, last_report_frame: 0, last_report_micros: 0 }
    }
}

/// What one update does: while not paused, the measured wall delta is added
/// to the simulation time (saturating at `T_LIM`) and the frame counter
/// increments (saturating); while paused, nothing changes.
pub open spec fn update_spec(tm: Timer, dt: Fx) -> Timer {
    if tm.pause {
        tm
    } else {
        Timer {
            t: if tm.t.to_int() + dt.to_int() > T_LIM {
                Fx(T_LIM)
            } else {
                Fx((tm.t.to_int() + dt.to_int()) as i64)
            },
            frame: if tm.frame < u32::MAX {
                (tm.frame + 1) as u32
            } else {
                tm.frame
            },
            ..tm
        }
    }
}

/// The timeline row the current simulation time falls in: negative times
/// map to row zero, and the row saturates at the 32-bit limit.
pub open spec fn row_of_time(t: int) -> int {
    if t <= 0 {
        0
    } else {
        let v = (t * ROWS_PER_SECOND) / 65536;
        if v > u32::MAX {
            u32::MAX as int
        } else {
            v
        }
    }
}

/// A scrubbed simulation time, clamped into the admitted range.
pub open spec fn clamp_time(v: int) -> int {
    if v < -T_LIM {
        -(T_LIM as int)
    } else if v > T_LIM {
        T_LIM as int
    } else {
        v
    }
}

/// The simulation time of a timeline row.
pub open spec fn time_of_row(row: int) -> int {
    (row * 65536) / (ROWS_PER_SECOND as int)
}

/// What one external sync event does: a row seek overwrites the simulation
/// time (the external timeline is authoritative); the other events carry no
/// state for the clock.
pub open spec fn sync_spec(tm: Timer, ev: SyncEvent) -> Timer {
    match ev {
        SyncEvent::SetRow(row) => Timer { t: Fx(time_of_row(row as int) as i64), ..tm },
        SyncEvent::Pause(_) => tm,
        SyncEvent::SaveTracks => tm,
    }
}

impl Timer {
    /// Advances the clock by one frame's measured wall delta, unless
    /// paused.  Paused updates change nothing; running updates never move
    /// time backwards.
    pub fn update(&mut self, dt: Fx)
        requires
            old(self).wf(),
            0 <= dt.to_int() <= 0x1_0000_0000,
        ensures
            *final(self) == update_spec(*old(self), dt),
            old(self).pause ==> *final(self) == *old(self),
            !old(self).pause ==> final(self).t.to_int() >= old(self).t.to_int(),
            final(self).frame >= old(self).frame,
            final(self).wf(),
    {
        if !self.pause {
            let nt = self.t.0 + dt.0;
            self.t = if nt > T_LIM {
                Fx(T_LIM)
            } else {
                Fx(nt)
            };
            if self.frame < u32::MAX {
                self.frame = self.frame + 1;
            }
        }
    }

    /// Flips the pause flag; nothing else moves.
    pub fn toggle_pause(&mut self)
        ensures
            *final(self) == (Timer { pause: !old(self).pause, ..*old(self) }),
    {
        self.pause = !self.pause;
    }

    /// Scrubs the simulation time by a signed step, clamped into the
    /// admitted range.
    pub fn nudge(&mut self, delta: Fx)
        requires
            old(self).wf(),
            -0x1_0000_0000 <= delta.to_int() <= 0x1_0000_0000,
        ensures
            *final(self) == (Timer {
                t: Fx(clamp_time(old(self).t.to_int() + delta.to_int()) as i64),
                ..*old(self)
            }),
            final(self).wf(),
    {
        let nt = Fx(self.t.0 + delta.0);
        self.t = nt.clamp(Fx(-T_LIM), Fx(T_LIM));
    }

    /// Overwrites the simulation time from an external source.
    pub fn seek(&mut self, t: Fx)
        requires
            -T_LIM <= t.to_int() <= T_LIM,
        ensures
            *final(self) == (Timer { t, ..*old(self) }),
            old(self).wf() ==> final(self).wf(),
    {
        self.t = t;
    }

    /// The timeline row of the current simulation time.
    pub fn current_row(&self) -> (r: u32)
        requires
            self.wf(),
        ensures
            r as int == row_of_time(self.t.to_int()),
    {
        if self.t.0 <= 0 {
            0
        } else {
            let v: u64 = ((self.t.0 as u64) * 10) / 65536;
            if v > 0xFFFF_FFFF {
                u32::MAX
            } else {
                v as u32
            }
        }
    }

    /// Applies one event from the external timeline editor.
    pub fn apply_sync_event(&mut self, ev: SyncEvent)
        requires
            old(self).wf(),
        ensures
            *final(self) == sync_spec(*old(self), ev),
            final(self).wf(),
    {
        match ev {
            SyncEvent::SetRow(row) => {
                let raw: u64 = ((row as u64) * 65536) / 10;
                proof {
                    vstd::arithmetic::div_mod::lemma_div_is_ordered(
                        (row as int) * 65536,
                        0xFFFF_FFFF_0000,
                        10,
                    );
                    assert(0xFFFF_FFFF_0000int / 10int == 28147497664512int);
                    vstd::arithmetic::div_mod::lemma_div_pos_is_pos((row as int) * 65536, 10);
                }
                self.t = Fx(raw as i64);
            },
            SyncEvent::Pause(_) => {},
            SyncEvent::SaveTracks => {},
        }
    }

    /// Checks the diagnostic accumulator against the wall clock: when a
    /// report interval has passed, returns the frames done and wall
    /// microseconds elapsed since the last report and resets the marker;
    /// otherwise returns nothing and changes nothing.
    pub fn maybe_report(&mut self, now_micros: u64) -> (r: Option<(u32, u64)>)
        requires
            old(self).wf(),
        ensures
            now_micros > old(self).last_report_micros + REPORT_INTERVAL_MICROS ==> {
                &&& r == Some(
                    (
                        (old(self).frame - old(self).last_report_frame) as u32,
                        (now_micros - old(self).last_report_micros) as u64,
                    ),
                )
                &&& *final(self) == (Timer {
                    last_report_frame: old(self).frame,
                    last_report_micros: now_micros,
                    ..*old(self)
                })
            },
            now_micros <= old(self).last_report_micros + REPORT_INTERVAL_MICROS ==> {
                &&& r is None
                &&& *final(self) == *old(self)
            },
            final(self).wf(),
    {
        let due = if now_micros > REPORT_INTERVAL_MICROS {
            now_micros - REPORT_INTERVAL_MICROS > self.last_report_micros
        } else {
            false
        };
        if due {
            let frames = self.frame - self.last_report_frame;
            let elapsed = now_micros - self.last_report_micros;
            self.last_report_frame = self.frame;
            self.last_report_micros = now_micros;
            Some((frames, elapsed))
        } else {
            None
        }
    }
}

} // verus!
