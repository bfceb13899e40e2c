//! The per-cycle decision logic of the control loop.
//!
//! Each wake of the loop is split into a pure decision and external
//! actions.  [`plan_cycle`] takes the persistent state, the latest
//! counter reading, the size in effect, the clock and a configuration
//! snapshot, and returns the state after the decision's bookkeeping
//! together with the one action the loop must perform: nothing, write an
//! audit record, or apply a new size.  When an application succeeds the
//! loop feeds the state through [`commit_applied`]; when it fails the
//! planned state stands and the cycle is simply retried.

use vstd::prelude::*;

use crate::algorithm::{calculate_new_size, calculate_shrink_size, spec_grow_target,
    spec_shrink_target};
use crate::config::Config;
use crate::history::{HistoryAction, HistoryDetail, HistoryRecord};
use crate::rate_limit::{check_rate_limit, spec_after_adjustment, spec_check_rate_limit,
    update_rate_limit_state_after_adjustment, RateLimitResult};
use crate::state::WalrusState;

verus! {

/// The one external action a cycle asks of the loop.
#[derive(Copy, Clone, Debug, PartialEq, Eq, Structural)]
pub enum CycleAction {
    /// The metric source was unavailable: the cycle is treated as not
    /// having happened and is retried on the next wake.
    MetricUnavailable,
    /// The first reading became the baseline; no decision was made.
    BaselineEstablished,
    /// A silent non-event: no record is written, nothing is applied.
    Idle,
    /// The rate limiter blocked the decision: write the record, apply
    /// nothing.
    RecordSkipped { record: HistoryRecord },
    /// Dry-run mode: write the record of what would have happened, apply
    /// nothing.  The decision still counts against the rate limits.
    RecordDryRun { record: HistoryRecord },
    /// Apply `new_size`; on success run [`commit_applied`] and write the
    /// record, on failure keep the planned state and retry next cycle.
    ApplyChange { new_size: i32, record: HistoryRecord },
}

/// The outcome of planning one cycle.
#[derive(Copy, Clone, Debug, PartialEq, Eq, Structural)]
pub struct CyclePlan {
    /// The persistent state after the decision's own bookkeeping (before
    /// any successful application is committed).
    pub next_state: WalrusState,
    /// What the loop must now do.
    pub action: CycleAction,
}

/// `quiet_intervals + 1`, held at the top of the 32-bit range.
pub open spec fn spec_inc_quiet(q: i32) -> i32 {
    if q == i32::MAX {
        i32::MAX
    } else {
        (q + 1) as i32
    }
}

/// The grow branch of a cycle, after baseline and threshold handling:
/// `s` already carries the cleared quiet-interval counter and the new
/// baseline.
pub open spec fn spec_plan_grow(
    s: WalrusState,
    current_requested: i64,
    current_size: i32,
    interval_sec: i32,
    now: i64,
    cfg: Config,
    delta: int,
) -> CyclePlan {
    let calculated = spec_grow_target(current_size as int, delta);
    let capped = calculated > cfg.max_size_mb as int;
    let new_size = if capped {
        cfg.max_size_mb as int
    } else {
        calculated
    };
    if current_size as int >= new_size {
        CyclePlan { next_state: s, action: CycleAction::Idle }
    } else {
        let detail = if capped {
            HistoryDetail::GrowCapped {
                delta: delta as i64,
                calculated_size_mb: calculated as i32,
                walrus_max_mb: cfg.max_size_mb,
            }
        } else {
            HistoryDetail::Grow { delta: delta as i64, calculated_size_mb: calculated as i32 }
        };
        let verdict = spec_check_rate_limit(s, now, cfg.cooldown_sec, cfg.max_changes_per_hour);
        if !(verdict is Allowed) {
            CyclePlan {
                next_state: s,
                action: CycleAction::RecordSkipped {
                    record: HistoryRecord {
                        action: HistoryAction::Skipped,
                        old_size_mb: current_size,
                        new_size_mb: new_size as i32,
                        forced_checkpoints: current_requested,
                        checkpoint_timeout_sec: interval_sec,
                        detail: HistoryDetail::RateLimited { verdict },
                    },
                },
            }
        } else if cfg.dry_run {
            CyclePlan {
                next_state: spec_after_adjustment(s, now),
                action: CycleAction::RecordDryRun {
                    record: HistoryRecord {
                        action: HistoryAction::DryRun,
                        old_size_mb: current_size,
                        new_size_mb: new_size as i32,
                        forced_checkpoints: current_requested,
                        checkpoint_timeout_sec: interval_sec,
                        detail,
                    },
                },
            }
        } else {
            CyclePlan {
                next_state: s,
                action: CycleAction::ApplyChange {
                    new_size: new_size as i32,
                    record: HistoryRecord {
                        action: if capped {
                            HistoryAction::Capped
                        } else {
                            HistoryAction::Increase
                        },
                        old_size_mb: current_size,
                        new_size_mb: new_size as i32,
                        forced_checkpoints: current_requested,
                        checkpoint_timeout_sec: interval_sec,
                        detail,
                    },
                },
            }
        }
    }
}

/// The shrink branch of a cycle: `s` already carries the incremented
/// quiet-interval counter and the new baseline.
pub open spec fn spec_plan_shrink(
    s: WalrusState,
    current_requested: i64,
    current_size: i32,
    interval_sec: i32,
    now: i64,
    cfg: Config,
) -> CyclePlan {
    if !cfg.shrink_enabled {
        CyclePlan { next_state: s, action: CycleAction::Idle }
    } else if s.quiet_intervals < cfg.shrink_intervals {
        CyclePlan { next_state: s, action: CycleAction::Idle }
    } else if current_size <= cfg.min_size_mb {
        CyclePlan { next_state: s, action: CycleAction::Idle }
    } else {
        let target = spec_shrink_target(
            current_size as int,
            cfg.shrink_factor_hundredths as int,
            cfg.min_size_mb as int,
        );
        if target >= current_size as int {
            CyclePlan { next_state: s, action: CycleAction::Idle }
        } else {
            let detail = HistoryDetail::Shrink {
                shrink_factor_hundredths: cfg.shrink_factor_hundredths,
                quiet_intervals: s.quiet_intervals,
            };
            let verdict = spec_check_rate_limit(s, now, cfg.cooldown_sec, cfg.max_changes_per_hour);
            if !(verdict is Allowed) {
                // Blocked shrinks keep their accumulated quiet intervals
                // and are retried on the next cycle.
                CyclePlan {
                    next_state: s,
                    action: CycleAction::RecordSkipped {
                        record: HistoryRecord {
                            action: HistoryAction::Skipped,
                            old_size_mb: current_size,
                            new_size_mb: target as i32,
                            forced_checkpoints: current_requested,
                            checkpoint_timeout_sec: interval_sec,
                            detail: HistoryDetail::RateLimited { verdict },
                        },
                    },
                }
            } else if cfg.dry_run {
                // A simulated shrink is a decision that was made: the
                // quiet intervals reset and the change counts against
                // the rate limits.
                CyclePlan {
                    next_state: spec_after_adjustment(
                        WalrusState { quiet_intervals: 0, ..s },
                        now,
                    ),
                    action: CycleAction::RecordDryRun {
                        record: HistoryRecord {
                            action: HistoryAction::DryRun,
                            old_size_mb: current_size,
                            new_size_mb: target as i32,
                            forced_checkpoints: current_requested,
                            checkpoint_timeout_sec: interval_sec,
                            detail,
                        },
                    },
                }
            } else {
                CyclePlan {
                    next_state: s,
                    action: CycleAction::ApplyChange {
                        new_size: target as i32,
                        record: HistoryRecord {
                            action: HistoryAction::Decrease,
                            old_size_mb: current_size,
                            new_size_mb: target as i32,
                            forced_checkpoints: current_requested,
                            checkpoint_timeout_sec: interval_sec,
                            detail,
                        },
                    },
                }
            }
        }
    }
}

/// One full cycle of the control loop as a pure decision.
///
/// An unavailable metric leaves the state untouched (the "last checked"
/// stamp does not advance).  Otherwise the stamp advances; the first
/// reading only establishes the baseline.  After that the delta against
/// the previous baseline picks the grow branch (at or above the
/// threshold; quiet intervals reset at once) or the shrink branch
/// (below it; quiet intervals accumulate).
pub open spec fn spec_plan_cycle(
    state: WalrusState,
    first_iteration: bool,
    current_requested: i64,
    current_size: i32,
    interval_sec: i32,
    now: i64,
    cfg: Config,
) -> CyclePlan {
    if current_requested < 0 {
        CyclePlan { next_state: state, action: CycleAction::MetricUnavailable }
    } else {
        let checked = WalrusState { last_check_time: now, ..state };
        if first_iteration {
            CyclePlan {
                next_state: WalrusState { prev_requested: current_requested, ..checked },
                action: CycleAction::BaselineEstablished,
            }
        } else {
            let delta = current_requested as int - state.prev_requested as int;
            let rebased = WalrusState { prev_requested: current_requested, ..checked };
            if delta >= cfg.threshold as int {
                spec_plan_grow(
                    WalrusState { quiet_intervals: 0, ..rebased },
                    current_requested,
                    current_size,
                    interval_sec,
                    now,
                    cfg,
                    delta,
                )
            } else {
                spec_plan_shrink(
                    WalrusState { quiet_intervals: spec_inc_quiet(rebased.quiet_intervals), ..rebased },
                    current_requested,
                    current_size,
                    interval_sec,
                    now,
                    cfg,
                )
            }
        }
    }
}

/// Plan one cycle of the control loop.
///
/// The result is exactly [`spec_plan_cycle`] of the inputs, and the
/// planned state is again well formed.  The loop performs the returned
/// action and, only when it applied a change successfully, commits the
/// adjustment with [`commit_applied`].
pub fn plan_cycle(
    state: &WalrusState,
    first_iteration: bool,
    current_requested: i64,
    current_size: i32,
    interval_sec: i32,
    now: i64,
    cfg: &Config,
) -> (plan: CyclePlan)
    requires
        state.well_formed(),
        cfg.valid(),
        current_size >= 0,
        now >= 0,
    ensures
        plan == spec_plan_cycle(
            *state,
            first_iteration,
            current_requested,
            current_size,
            interval_sec,
            now,
            *cfg,
        ),
        plan.next_state.well_formed(),
{
    if current_requested < 0 {
        return CyclePlan { next_state: *state, action: CycleAction::MetricUnavailable };
    }
    let mut next = *state;
    next.last_check_time = now;
    if first_iteration {
        next.prev_requested = current_requested;
        return CyclePlan { next_state: next, action: CycleAction::BaselineEstablished };
    }
    let delta: i64 = current_requested - state.prev_requested;
    next.prev_requested = current_requested;
    if delta >= cfg.threshold as i64 {
        next.quiet_intervals = 0;
        let calculated = calculate_new_size(current_size, delta);
        let capped = calculated > cfg.max_size_mb;
        let new_size = if capped {
            cfg.max_size_mb
        } else {
            calculated
        };
        if current_size >= new_size {
            return CyclePlan { next_state: next, action: CycleAction::Idle };
        }
        let detail = if capped {
            HistoryDetail::GrowCapped {
                delta,
                calculated_size_mb: calculated,
                walrus_max_mb: cfg.max_size_mb,
            }
        } else {
            HistoryDetail::Grow { delta, calculated_size_mb: calculated }
        };
        let verdict = check_rate_limit(&next, now, cfg.cooldown_sec, cfg.max_changes_per_hour);
        if verdict.is_blocked() {
            CyclePlan {
                next_state: next,
                action: CycleAction::RecordSkipped {
                    record: HistoryRecord {
                        action: HistoryAction::Skipped,
                        old_size_mb: current_size,
                        new_size_mb: new_size,
                        forced_checkpoints: current_requested,
                        checkpoint_timeout_sec: interval_sec,
                        detail: HistoryDetail::RateLimited { verdict },
                    },
                },
            }
        } else if cfg.dry_run {
            update_rate_limit_state_after_adjustment(&mut next, now);
            CyclePlan {
                next_state: next,
                action: CycleAction::RecordDryRun {
                    record: HistoryRecord {
                        action: HistoryAction::DryRun,
                        old_size_mb: current_size,
                        new_size_mb: new_size,
                        forced_checkpoints: current_requested,
                        checkpoint_timeout_sec: interval_sec,
                        detail,
                    },
                },
            }
        } else {
            CyclePlan {
                next_state: next,
                action: CycleAction::ApplyChange {
                    new_size,
                    record: HistoryRecord {
                        action: if capped {
                            HistoryAction::Capped
                        } else {
                            HistoryAction::Increase
                        },
                        old_size_mb: current_size,
                        new_size_mb: new_size,
                        forced_checkpoints: current_requested,
                        checkpoint_timeout_sec: interval_sec,
                        detail,
                    },
                },
            }
        }
    } else {
        if next.quiet_intervals != i32::MAX {
            next.quiet_intervals = next.quiet_intervals + 1;
        }
        if !cfg.shrink_enabled {
            return CyclePlan { next_state: next, action: CycleAction::Idle };
        }
        if next.quiet_intervals < cfg.shrink_intervals {
            return CyclePlan { next_state: next, action: CycleAction::Idle };
        }
        if current_size <= cfg.min_size_mb {
            return CyclePlan { next_state: next, action: CycleAction::Idle };
        }
        let target = calculate_shrink_size(current_size, cfg.shrink_factor_hundredths, cfg.min_size_mb);
        if target >= current_size {
            return CyclePlan { next_state: next, action: CycleAction::Idle };
        }
        let detail = HistoryDetail::Shrink {
            shrink_factor_hundredths: cfg.shrink_factor_hundredths,
            quiet_intervals: next.quiet_intervals,
        };
        let verdict = check_rate_limit(&next, now, cfg.cooldown_sec, cfg.max_changes_per_hour);
        if verdict.is_blocked() {
            CyclePlan {
                next_state: next,
                action: CycleAction::RecordSkipped {
                    record: HistoryRecord {
                        action: HistoryAction::Skipped,
                        old_size_mb: current_size,
                        new_size_mb: target,
                        forced_checkpoints: current_requested,
                        checkpoint_timeout_sec: interval_sec,
                        detail: HistoryDetail::RateLimited { verdict },
                    },
                },
            }
        } else if cfg.dry_run {
            next.quiet_intervals = 0;
            update_rate_limit_state_after_adjustment(&mut next, now);
            CyclePlan {
                next_state: next,
                action: CycleAction::RecordDryRun {
                    record: HistoryRecord {
                        action: HistoryAction::DryRun,
                        old_size_mb: current_size,
                        new_size_mb: target,
                        forced_checkpoints: current_requested,
                        checkpoint_timeout_sec: interval_sec,
                        detail,
                    },
                },
            }
        } else {
            CyclePlan {
                next_state: next,
                action: CycleAction::ApplyChange {
                    new_size: target,
                    record: HistoryRecord {
                        action: HistoryAction::Decrease,
                        old_size_mb: current_size,
                        new_size_mb: target,
                        forced_checkpoints: current_requested,
                        checkpoint_timeout_sec: interval_sec,
                        detail,
                    },
                },
            }
        }
    }
}

/// The state after a planned change was applied successfully: one more
/// adjustment on the books, a fresh adjustment timestamp, the quiet
/// intervals cleared when the change was a shrink, and the rate-limit
/// window advanced.
pub open spec fn spec_commit_applied(s: WalrusState, now: i64, reset_quiet: bool) -> WalrusState {
    spec_after_adjustment(
        WalrusState {
            total_adjustments: if s.total_adjustments == i64::MAX {
                i64::MAX
            } else {
                (s.total_adjustments + 1) as i64
            },
            last_adjustment_time: now,
            quiet_intervals: if reset_quiet {
                0
            } else {
                s.quiet_intervals
            },
            ..s
        },
        now,
    )
}

/// Commit a successfully applied adjustment.  `reset_quiet` is set when
/// the applied change was a shrink (a grow already cleared the counter
/// during planning).  On an application failure this is not called: no
/// bookkeeping advances and the cycle is retried.
pub fn commit_applied(state: &mut WalrusState, now: i64, reset_quiet: bool)
    requires
        old(state).well_formed(),
        now >= 0,
    ensures
        *final(state) == spec_commit_applied(*old(state), now, reset_quiet),
        final(state).well_formed(),
{
    if state.total_adjustments != i64::MAX {
        state.total_adjustments = state.total_adjustments + 1;
    }
    state.last_adjustment_time = now;
    if reset_quiet {
        state.quiet_intervals = 0;
    }
    update_rate_limit_state_after_adjustment(state, now);
}

/// Consume the one-shot suppression mark that a self-triggered
/// configuration reload leaves behind: report whether it was set, and
/// clear it either way, so at most one cycle is ever suppressed.
pub fn should_skip_iteration(suppress_next: &mut bool) -> (was_set: bool)
    ensures
        was_set == *old(suppress_next),
        *final(suppress_next) == false,
{
    let was: bool = *suppress_next;
    *suppress_next = false;
    was
}

/// Emergency stop at cycle level: with an hourly cap of zero no cycle
/// ever plans an applied change — whatever the state, the metric, the
/// clock, the cooldown or the quiet intervals say, the plan is never
/// `ApplyChange` and never `RecordDryRun`.
pub proof fn lemma_emergency_stop_blocks_cycle(
    state: WalrusState,
    first_iteration: bool,
    current_requested: i64,
    current_size: i32,
    interval_sec: i32,
    now: i64,
    cfg: Config,
)
    requires
        cfg.max_changes_per_hour == 0,
    ensures
        !(spec_plan_cycle(
            state,
            first_iteration,
            current_requested,
            current_size,
            interval_sec,
            now,
            cfg,
        ).action is ApplyChange),
        !(spec_plan_cycle(
            state,
            first_iteration,
            current_requested,
            current_size,
            interval_sec,
            now,
            cfg,
        ).action is RecordDryRun),
{
}

/// The quiet-interval state machine: on every active cycle (metric
/// available, baseline established) a delta at or above the threshold
/// clears the counter at once — even when shrink conditions were nearly
/// satisfied — while a delta below it accumulates one more quiet
/// interval, unless the cycle culminated in a simulated shrink decision,
/// which clears the counter just as a real one does.
pub proof fn lemma_quiet_interval_state_machine(
    state: WalrusState,
    current_requested: i64,
    current_size: i32,
    interval_sec: i32,
    now: i64,
    cfg: Config,
)
    requires
        current_requested >= 0,
    ensures
        (current_requested as int - state.prev_requested as int) >= cfg.threshold as int
            ==> spec_plan_cycle(
            state,
            false,
            current_requested,
            current_size,
            interval_sec,
            now,
            cfg,
        ).next_state.quiet_intervals == 0,
        ((current_requested as int - state.prev_requested as int) < cfg.threshold as int
            && !(spec_plan_cycle(
            state,
            false,
            current_requested,
            current_size,
            interval_sec,
            now,
            cfg,
        ).action is RecordDryRun)) ==> spec_plan_cycle(
            state,
            false,
            current_requested,
            current_size,
            interval_sec,
            now,
            cfg,
        ).next_state.quiet_intervals == spec_inc_quiet(state.quiet_intervals),
        ((current_requested as int - state.prev_requested as int) < cfg.threshold as int
            && spec_plan_cycle(
            state,
            false,
            current_requested,
            current_size,
            interval_sec,
            now,
            cfg,
        ).action is RecordDryRun) ==> spec_plan_cycle(
            state,
            false,
            current_requested,
            current_size,
            interval_sec,
            now,
            cfg,
        ).next_state.quiet_intervals == 0,
{
}

} // verus!
