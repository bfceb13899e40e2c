//! The read-only query surface and the manual analyze-and-apply path.
//!
//! A status report derives the live rate-limiter view (cooldown active,
//! window expired) from the state and the clock at read time; nothing is
//! stored.  The analyze path computes an ordinary recommendation and
//! decides whether a manually requested application may proceed; manual
//! applications are deliberately exempt from the rate-limit bookkeeping.

use vstd::prelude::*;

use crate::algorithm::{compute_recommendation, spec_recommendation, Action, Recommendation};
use crate::config::Config;
use crate::rate_limit::{spec_cooldown_end, spec_window_expired};
use crate::state::WalrusState;

verus! {

/// A point-in-time view of configuration, counters and derived
/// rate-limiter state.
#[derive(Copy, Clone, Debug, PartialEq, Eq, Structural)]
pub struct StatusReport {
    /// Whether automatic sizing is enabled.
    pub enabled: bool,
    /// Size currently in effect, in MB.
    pub current_max_wal_size_mb: i32,
    /// Configured ceiling, in MB.
    pub configured_maximum_mb: i32,
    /// Grow threshold in forced checkpoints per interval.
    pub threshold: i32,
    /// Length of the measurement interval, in seconds.
    pub checkpoint_timeout_sec: i32,
    /// Whether automatic shrinking is enabled.
    pub shrink_enabled: bool,
    /// Shrink factor in hundredths.
    pub shrink_factor_hundredths: i32,
    /// Quiet intervals required before a shrink.
    pub shrink_intervals: i32,
    /// Configured floor, in MB.
    pub min_size_mb: i32,
    /// Whether the control loop was observed running.
    pub worker_running: bool,
    /// When the last analysis cycle ran (0 = never).
    pub last_check_time: i64,
    /// When the last adjustment was applied (0 = never).
    pub last_adjustment_time: i64,
    /// Adjustments applied since start.
    pub total_adjustments: i64,
    /// Consecutive quiet intervals accumulated.
    pub quiet_intervals: i32,
    /// Whether the current size has reached the configured ceiling.
    pub at_ceiling: bool,
    /// Configured cooldown, in seconds.
    pub cooldown_sec: i32,
    /// Configured hourly cap.
    pub max_changes_per_hour: i32,
    /// Whether a cooldown is in force at the time of the report.
    pub cooldown_active: bool,
    /// Seconds of cooldown left (0 when none is in force).
    pub cooldown_remaining_sec: i64,
    /// Changes counted in the current window.
    pub changes_this_hour: i32,
    /// Start of the current window (0 = none started).
    pub hour_window_start: i64,
    /// Whether the hourly cap blocks further changes right now.
    pub hourly_limit_reached: bool,
}

/// The status report as a function of state, clock, size, interval
/// length, an observed worker flag and the configuration.
pub open spec fn spec_status(
    state: WalrusState,
    now: i64,
    current_size: i32,
    interval_sec: i32,
    worker_running: bool,
    cfg: Config,
) -> StatusReport {
    let cooldown_active = cfg.cooldown_sec > 0 && state.last_adjustment_time > 0 && (now as int)
        < spec_cooldown_end(state.last_adjustment_time as int, cfg.cooldown_sec as int);
    let window_expired = spec_window_expired(state.hour_window_start as int, now as int);
    StatusReport {
        enabled: cfg.enabled,
        current_max_wal_size_mb: current_size,
        configured_maximum_mb: cfg.max_size_mb,
        threshold: cfg.threshold,
        checkpoint_timeout_sec: interval_sec,
        shrink_enabled: cfg.shrink_enabled,
        shrink_factor_hundredths: cfg.shrink_factor_hundredths,
        shrink_intervals: cfg.shrink_intervals,
        min_size_mb: cfg.min_size_mb,
        worker_running,
        last_check_time: state.last_check_time,
        last_adjustment_time: state.last_adjustment_time,
        total_adjustments: state.total_adjustments,
        quiet_intervals: state.quiet_intervals,
        at_ceiling: current_size >= cfg.max_size_mb,
        cooldown_sec: cfg.cooldown_sec,
        max_changes_per_hour: cfg.max_changes_per_hour,
        cooldown_active,
        cooldown_remaining_sec: if cooldown_active {
            (spec_cooldown_end(state.last_adjustment_time as int, cfg.cooldown_sec as int)
                - now as int) as i64
        } else {
            0
        },
        changes_this_hour: state.changes_this_hour,
        hour_window_start: state.hour_window_start,
        hourly_limit_reached: !window_expired && cfg.max_changes_per_hour > 0
            && state.changes_this_hour >= cfg.max_changes_per_hour,
    }
}

/// Build the point-in-time status report; the cooldown and hourly-cap
/// view is derived from the state and `now`, exactly as
/// [`spec_status`] states it.
pub fn status(
    state: &WalrusState,
    now: i64,
    current_size: i32,
    interval_sec: i32,
    worker_running: bool,
    cfg: &Config,
) -> (report: StatusReport)
    requires
        state.well_formed(),
        now >= 0,
        cfg.valid(),
    ensures
        report == spec_status(*state, now, current_size, interval_sec, worker_running, *cfg),
{
    let cooldown_end: i64 = if state.last_adjustment_time > i64::MAX - (cfg.cooldown_sec as i64) {
        i64::MAX
    } else {
        state.last_adjustment_time + (cfg.cooldown_sec as i64)
    };
    let cooldown_active = cfg.cooldown_sec > 0 && state.last_adjustment_time > 0 && now
        < cooldown_end;
    let window_expired: bool = if state.hour_window_start > 0 {
        let window_end: i64 = if state.hour_window_start > i64::MAX - 3600 {
            i64::MAX
        } else {
            state.hour_window_start + 3600
        };
        now >= window_end
    } else {
        true
    };
    StatusReport {
        enabled: cfg.enabled,
        current_max_wal_size_mb: current_size,
        configured_maximum_mb: cfg.max_size_mb,
        threshold: cfg.threshold,
        checkpoint_timeout_sec: interval_sec,
        shrink_enabled: cfg.shrink_enabled,
        shrink_factor_hundredths: cfg.shrink_factor_hundredths,
        shrink_intervals: cfg.shrink_intervals,
        min_size_mb: cfg.min_size_mb,
        worker_running,
        last_check_time: state.last_check_time,
        last_adjustment_time: state.last_adjustment_time,
        total_adjustments: state.total_adjustments,
        quiet_intervals: state.quiet_intervals,
        at_ceiling: current_size >= cfg.max_size_mb,
        cooldown_sec: cfg.cooldown_sec,
        max_changes_per_hour: cfg.max_changes_per_hour,
        cooldown_active,
        cooldown_remaining_sec: if cooldown_active {
            cooldown_end - now
        } else {
            0
        },
        changes_this_hour: state.changes_this_hour,
        hour_window_start: state.hour_window_start,
        hourly_limit_reached: !window_expired && cfg.max_changes_per_hour > 0
            && state.changes_this_hour >= cfg.max_changes_per_hour,
    }
}

/// What an analyze call decides to do.
#[derive(Copy, Clone, Debug, PartialEq, Eq, Structural)]
pub enum AnalyzeOutcome {
    /// An application was requested by a caller without the privilege.
    PermissionDenied,
    /// The engine is disabled; nothing was analyzed.
    EngineDisabled,
    /// The recommendation was computed but nothing is to be applied.
    NotApplied { recommendation: Recommendation },
    /// Apply `new_size`; on success the caller commits the manual
    /// application with [`commit_manual_apply`] and records it.
    Apply { recommendation: Recommendation, new_size: i32 },
}

/// The analyze decision: privilege first, then the enabled switch, then
/// an ordinary recommendation, applied only when it was requested and
/// would actually move the size in the recommended direction.
pub open spec fn spec_analyze(
    state: WalrusState,
    current_size: i32,
    current_requested: i64,
    cfg: Config,
    apply: bool,
    privileged: bool,
) -> AnalyzeOutcome {
    if apply && !privileged {
        AnalyzeOutcome::PermissionDenied
    } else if !cfg.enabled {
        AnalyzeOutcome::EngineDisabled
    } else {
        let recommendation = spec_recommendation(state, current_size, current_requested, cfg);
        if apply && recommendation.action is Increase && current_size
            < recommendation.recommended_size_mb {
            AnalyzeOutcome::Apply { recommendation, new_size: recommendation.recommended_size_mb }
        } else if apply && recommendation.action is Decrease && current_size
            > recommendation.recommended_size_mb {
            AnalyzeOutcome::Apply { recommendation, new_size: recommendation.recommended_size_mb }
        } else {
            AnalyzeOutcome::NotApplied { recommendation }
        }
    }
}

/// Decide an analyze call: compute the recommendation and whether a
/// requested application may proceed.  The result is exactly
/// [`spec_analyze`] of the inputs.
pub fn analyze_decision(
    state: &WalrusState,
    current_size: i32,
    current_requested: i64,
    cfg: &Config,
    apply: bool,
    privileged: bool,
) -> (outcome: AnalyzeOutcome)
    requires
        cfg.valid(),
        current_size >= 0,
    ensures
        outcome == spec_analyze(*state, current_size, current_requested, *cfg, apply, privileged),
{
    if apply && !privileged {
        return AnalyzeOutcome::PermissionDenied;
    }
    if !cfg.enabled {
        return AnalyzeOutcome::EngineDisabled;
    }
    let recommendation = compute_recommendation(state, current_size, current_requested, cfg);
    let apply_increase = matches!(recommendation.action, Action::Increase) && current_size
        < recommendation.recommended_size_mb;
    let apply_decrease = matches!(recommendation.action, Action::Decrease) && current_size
        > recommendation.recommended_size_mb;
    if apply && (apply_increase || apply_decrease) {
        AnalyzeOutcome::Apply { recommendation, new_size: recommendation.recommended_size_mb }
    } else {
        AnalyzeOutcome::NotApplied { recommendation }
    }
}

/// The state after a manual application: the adjustment is counted and
/// stamped, a manual grow clears the quiet intervals, and — by design —
/// the rate-limit bookkeeping (`changes_this_hour`, `hour_window_start`)
/// is left untouched: manual changes never consume the automatic budget.
pub open spec fn spec_commit_manual_apply(s: WalrusState, now: i64, action: Action) -> WalrusState {
    WalrusState {
        total_adjustments: if s.total_adjustments == i64::MAX {
            i64::MAX
        } else {
            (s.total_adjustments + 1) as i64
        },
        last_adjustment_time: now,
        quiet_intervals: if action is Increase {
            0
        } else {
            s.quiet_intervals
        },
        ..s
    }
}

/// Commit a successful manual application decided by
/// [`analyze_decision`].
pub fn commit_manual_apply(state: &mut WalrusState, now: i64, action: Action)
    requires
        old(state).well_formed(),
        now >= 0,
    ensures
        *final(state) == spec_commit_manual_apply(*old(state), now, action),
        final(state).well_formed(),
        final(state).changes_this_hour == old(state).changes_this_hour,
        final(state).hour_window_start == old(state).hour_window_start,
{
    if state.total_adjustments != i64::MAX {
        state.total_adjustments = state.total_adjustments + 1;
    }
    state.last_adjustment_time = now;
    if matches!(action, Action::Increase) {
        state.quiet_intervals = 0;
    }
}

} // verus!
