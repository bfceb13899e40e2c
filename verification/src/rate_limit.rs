//! The two-tier admission control gating automatic adjustments.
//!
//! Three checks run in order: an emergency stop (an hourly cap of zero
//! blocks everything), a cooldown (a strict comparison, so the boundary
//! instant is allowed), and a fixed one-hour window cap.  The window is
//! a deliberate fixed-window approximation of a rolling hour; bursts
//! astride a window boundary may briefly exceed the intended rate, and
//! that behaviour is preserved here, not "fixed".

use vstd::prelude::*;

use crate::state::WalrusState;

verus! {

/// The verdict of one rate-limit check.  A blocked verdict carries the
/// numbers an audit record needs to explain the block.
#[derive(Copy, Clone, Debug, PartialEq, Eq, Structural)]
pub enum RateLimitResult {
    /// The adjustment may proceed.
    Allowed,
    /// Blocked because the cooldown since the last adjustment has not
    /// elapsed yet.
    BlockedCooldown { cooldown_sec: i32, remaining_sec: i64, last_adjustment_time: i64 },
    /// Blocked by the hourly cap; a cap of zero is the emergency stop
    /// that blocks every automatic adjustment.
    BlockedHourly { max_changes_per_hour: i32, changes_this_hour: i32, hour_window_start: i64 },
}

impl RateLimitResult {
    /// Whether this verdict blocks the adjustment.
    pub fn is_blocked(&self) -> (b: bool)
        ensures
            b == !(*self is Allowed),
    {
        match self {
            RateLimitResult::Allowed => false,
            _ => true,
        }
    }
}

/// `a + b` held at the top of the signed 64-bit range, as the running
/// system computes its deadline arithmetic.
pub open spec fn spec_sat_add(a: int, b: int) -> int {
    if a + b > i64::MAX as int {
        i64::MAX as int
    } else {
        a + b
    }
}

/// The instant from which the next adjustment is allowed.  A
/// `last_adjustment_time` ahead of the clock only ever extends the
/// cooldown — deliberate conservatism under backward clock jumps.
pub open spec fn spec_cooldown_end(last_adjustment_time: int, cooldown_sec: int) -> int {
    spec_sat_add(last_adjustment_time, cooldown_sec)
}

/// Whether the fixed one-hour window has expired at `now` (a window that
/// never started counts as expired).
pub open spec fn spec_window_expired(hour_window_start: int, now: int) -> bool {
    if hour_window_start > 0 {
        now >= spec_sat_add(hour_window_start, 3600)
    } else {
        true
    }
}

/// The full admission decision: emergency stop first, then cooldown,
/// then the hourly cap.
pub open spec fn spec_check_rate_limit(
    state: WalrusState,
    now: i64,
    cooldown_sec: i32,
    max_changes_per_hour: i32,
) -> RateLimitResult {
    if max_changes_per_hour == 0 {
        RateLimitResult::BlockedHourly {
            max_changes_per_hour: 0,
            changes_this_hour: state.changes_this_hour,
            hour_window_start: state.hour_window_start,
        }
    } else if cooldown_sec > 0 && state.last_adjustment_time > 0 && (now as int)
        < spec_cooldown_end(state.last_adjustment_time as int, cooldown_sec as int) {
        RateLimitResult::BlockedCooldown {
            cooldown_sec,
            remaining_sec: (spec_cooldown_end(state.last_adjustment_time as int, cooldown_sec as int)
                - now as int) as i64,
            last_adjustment_time: state.last_adjustment_time,
        }
    } else if !spec_window_expired(state.hour_window_start as int, now as int)
        && state.changes_this_hour >= max_changes_per_hour {
        RateLimitResult::BlockedHourly {
            max_changes_per_hour,
            changes_this_hour: state.changes_this_hour,
            hour_window_start: state.hour_window_start,
        }
    } else {
        RateLimitResult::Allowed
    }
}

/// Decide whether an automatic adjustment may proceed at `now`.
///
/// The result is exactly [`spec_check_rate_limit`]: an hourly cap of
/// zero always blocks; otherwise the adjustment is blocked while `now`
/// is strictly before the cooldown end, and then while the current
/// window is unexpired and already holds `max_changes_per_hour` changes.
pub fn check_rate_limit(
    state: &WalrusState,
    now: i64,
    cooldown_sec: i32,
    max_changes_per_hour: i32,
) -> (r: RateLimitResult)
    requires
        state.well_formed(),
        now >= 0,
        cooldown_sec >= 0,
    ensures
        r == spec_check_rate_limit(*state, now, cooldown_sec, max_changes_per_hour),
{
    if max_changes_per_hour == 0 {
        return RateLimitResult::BlockedHourly {
            max_changes_per_hour: 0,
            changes_this_hour: state.changes_this_hour,
            hour_window_start: state.hour_window_start,
        };
    }
    if cooldown_sec > 0 && state.last_adjustment_time > 0 {
        let cooldown_end: i64 = if state.last_adjustment_time > i64::MAX - (cooldown_sec as i64) {
            i64::MAX
        } else {
            state.last_adjustment_time + (cooldown_sec as i64)
        };
        if now < cooldown_end {
            return RateLimitResult::BlockedCooldown {
                cooldown_sec,
                remaining_sec: cooldown_end - now,
                last_adjustment_time: state.last_adjustment_time,
            };
        }
    }
    let window_expired: bool = if state.hour_window_start > 0 {
        let window_end: i64 = if state.hour_window_start > i64::MAX - 3600 {
            i64::MAX
        } else {
            state.hour_window_start + 3600
        };
        now >= window_end
    } else {
        true
    };
    if !window_expired && state.changes_this_hour >= max_changes_per_hour {
        return RateLimitResult::BlockedHourly {
            max_changes_per_hour,
            changes_this_hour: state.changes_this_hour,
            hour_window_start: state.hour_window_start,
        };
    }
    RateLimitResult::Allowed
}

/// The state after an adjustment was applied (or simulated): an expired
/// or absent window starts fresh with one counted change, an open window
/// has its count incremented.
pub open spec fn spec_after_adjustment(state: WalrusState, now: i64) -> WalrusState {
    if spec_window_expired(state.hour_window_start as int, now as int) {
        WalrusState { changes_this_hour: 1, hour_window_start: now, ..state }
    } else {
        WalrusState {
            changes_this_hour: if state.changes_this_hour == i32::MAX {
                i32::MAX
            } else {
                (state.changes_this_hour + 1) as i32
            },
            ..state
        }
    }
}

/// Record one applied (or simulated) adjustment in the rate-limit
/// bookkeeping.  Real and dry-run adjustments both count against the
/// limits; manual adjustments never go through here.
pub fn update_rate_limit_state_after_adjustment(state: &mut WalrusState, now: i64)
    requires
        old(state).well_formed(),
        now >= 0,
    ensures
        *final(state) == spec_after_adjustment(*old(state), now),
        final(state).well_formed(),
{
    let window_expired: bool = if state.hour_window_start > 0 {
        let window_end: i64 = if state.hour_window_start > i64::MAX - 3600 {
            i64::MAX
        } else {
            state.hour_window_start + 3600
        };
        now >= window_end
    } else {
        true
    };
    if window_expired {
        state.changes_this_hour = 1;
        state.hour_window_start = now;
    } else {
        if state.changes_this_hour != i32::MAX {
            state.changes_this_hour = state.changes_this_hour + 1;
        }
    }
}

/// Emergency stop: with an hourly cap of zero the admission check blocks
/// every automatic adjustment, whatever the cooldown settings, the
/// clock, or the rest of the state say.
pub proof fn lemma_emergency_stop(state: WalrusState, now: i64, cooldown_sec: i32)
    ensures
        spec_check_rate_limit(state, now, cooldown_sec, 0) == (RateLimitResult::BlockedHourly {
            max_changes_per_hour: 0,
            changes_this_hour: state.changes_this_hour,
            hour_window_start: state.hour_window_start,
        }),
        !(spec_check_rate_limit(state, now, cooldown_sec, 0) is Allowed),
{
}

/// The cooldown comparison is strict: from the instant
/// `last_adjustment_time + cooldown_sec` onward the cooldown no longer
/// blocks, while strictly before it the check reports a cooldown block.
pub proof fn lemma_cooldown_boundary(
    state: WalrusState,
    now: i64,
    cooldown_sec: i32,
    max_changes_per_hour: i32,
)
    requires
        max_changes_per_hour != 0,
        cooldown_sec > 0,
        state.last_adjustment_time > 0,
    ensures
        (now as int) >= spec_cooldown_end(state.last_adjustment_time as int, cooldown_sec as int)
            ==> !(spec_check_rate_limit(state, now, cooldown_sec, max_changes_per_hour)
            is BlockedCooldown),
        (now as int) < spec_cooldown_end(state.last_adjustment_time as int, cooldown_sec as int)
            ==> spec_check_rate_limit(state, now, cooldown_sec, max_changes_per_hour)
            is BlockedCooldown,
{
}

} // verus!
