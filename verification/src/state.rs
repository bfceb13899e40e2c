//! The engine's persistent state: a plain record of counters and
//! timestamps, the only memory the sizing engine keeps between cycles.
//!
//! In a running deployment one shared instance of [`WalrusState`] sits
//! behind a reader/writer lock; the control loop is its sole routine
//! writer, query callers read copies, and an administrative reset zeroes
//! it.  The locking is platform glue; here the record itself and every
//! transition on it are explicit and verified.

use vstd::prelude::*;

verus! {

/// Accumulated counters and timestamps of the sizing engine.
///
/// All timestamps are unix seconds; `0` means "never".  A zero
/// `prev_requested` means no baseline has been observed yet, and a zero
/// `hour_window_start` means no rate-limit window has started.
#[derive(Copy, Clone, Debug, PartialEq, Eq, Structural)]
pub struct WalrusState {
    /// Consecutive cycles with low checkpoint activity (delta below the
    /// threshold).  Reset to zero by any grow decision and by a real or
    /// simulated shrink.
    pub quiet_intervals: i32,
    /// Real adjustments applied since start; reset only administratively.
    pub total_adjustments: i64,
    /// Checkpoint-counter baseline as of the previous cycle.
    pub prev_requested: i64,
    /// When the last analysis cycle ran.
    pub last_check_time: i64,
    /// When the last sizing adjustment was applied.
    pub last_adjustment_time: i64,
    /// Adjustments counted in the current fixed rate-limit window.
    pub changes_this_hour: i32,
    /// Start of the current fixed rate-limit window.
    pub hour_window_start: i64,
}

impl WalrusState {
    /// The state invariant: every counter and timestamp is non-negative.
    ///
    /// Counters only ever grow or reset to zero, and timestamps come from
    /// a unix clock, so a freshly zeroed state satisfies this and every
    /// transition of the engine preserves it.
    pub open spec fn well_formed(self) -> bool {
        &&& self.quiet_intervals >= 0
        &&& self.total_adjustments >= 0
        &&& self.prev_requested >= 0
        &&& self.last_check_time >= 0
        &&& self.last_adjustment_time >= 0
        &&& self.changes_this_hour >= 0
        &&& self.hour_window_start >= 0
    }

    /// The all-zero state: no baseline, no adjustments, no open window.
    pub open spec fn spec_zeroed() -> WalrusState {
        WalrusState {
            quiet_intervals: 0,
            total_adjustments: 0,
            prev_requested: 0,
            last_check_time: 0,
            last_adjustment_time: 0,
            changes_this_hour: 0,
            hour_window_start: 0,
        }
    }
}

impl Default for WalrusState {
    /// A fresh state starts with every field zero, as shared memory does.
    fn default() -> (s: WalrusState)
        ensures
            s == WalrusState::spec_zeroed(),
            s.well_formed(),
    {
        WalrusState {
            quiet_intervals: 0,
            total_adjustments: 0,
            prev_requested: 0,
            last_check_time: 0,
            last_adjustment_time: 0,
            changes_this_hour: 0,
            hour_window_start: 0,
        }
    }
}

/// Read a copy of the current state, as a lock-guarded reader would.
pub fn read_state(state: &WalrusState) -> (s: WalrusState)
    ensures
        s == *state,
{
    *state
}

/// Apply one update function to the state, as the single lock-guarded
/// writer would; every mutation of the shared record goes through here.
pub fn update_state<F: FnOnce(WalrusState) -> WalrusState>(state: &mut WalrusState, f: F)
    requires
        call_requires(f, (*old(state),)),
    ensures
        call_ensures(f, (*old(state),), *final(state)),
{
    *state = f(*state);
}

/// Zero every field, as the administrative reset does.
pub fn reset_state(state: &mut WalrusState)
    ensures
        *final(state) == WalrusState::spec_zeroed(),
        final(state).well_formed(),
{
    state.quiet_intervals = 0;
    state.total_adjustments = 0;
    state.prev_requested = 0;
    state.last_check_time = 0;
    state.last_adjustment_time = 0;
    state.changes_this_hour = 0;
    state.hour_window_start = 0;
}

/// Current unix time in seconds.
///
/// Relies on `std::time::SystemTime::now`: a clock before the epoch, or
/// one whose second count does not fit a signed 64-bit value, is reported
/// as 0.  Nothing can be promised about which instant the clock returns;
/// callers treat the value as an arbitrary non-negative timestamp.
#[verifier::external_body]
pub fn now_unix() -> (t: i64)
    ensures
        t >= 0,
{
    std::time::SystemTime::now()
        .duration_since(std::time::UNIX_EPOCH)
        .map(|d| i64::try_from(d.as_secs()).unwrap_or(0))
        .unwrap_or(0)
}

} // verus!
