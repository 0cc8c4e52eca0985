//! The frame-loop driver.
//!
//! The host hands the library a frame callback; the loop runs it until the
//! callback asks to stop.  This is the whole scheduling surface of the
//! library: everything else is computed per call.

use vstd::prelude::*;

verus! {

/// What the frame callback wants next.
pub enum Action {
    Stop,
    Continue,
}

/// Runs `callback` until it returns `Action::Stop`.  The loop carries a
/// 64-bit frame budget so that its termination is checkable; at any real
/// frame rate the budget outlives the hardware.
pub fn start_loop<F: FnMut() -> Action>(mut callback: F)
    requires
        forall|f2: F| call_requires(f2, ()),
{
    let mut budget: u64 = u64::MAX;
    while budget > 0
        invariant
            forall|f2: F| call_requires(f2, ()),
        decreases budget,
    {
        budget = budget - 1;
        match callback() {
            Action::Stop => {
                break ;
            },
            Action::Continue => {},
        }
    }
}

/// Installs the frame callback on the host loop: on this target that is
/// the plain loop driver.
pub fn set_main_loop_callback<F: FnMut() -> Action>(callback: F)
    requires
        forall|f2: F| call_requires(f2, ()),
{
    start_loop(callback);
}

} // verus!
