//! Tests of the per-cycle decision logic, the rate limiter and the
//! state transitions.

use pg_walrus::config::Config;
use pg_walrus::controller::{commit_applied, plan_cycle, should_skip_iteration, CycleAction};
use pg_walrus::history::{HistoryAction, HistoryDetail};
use pg_walrus::query::{analyze_decision, commit_manual_apply, status, AnalyzeOutcome};
use pg_walrus::algorithm::Action;
use pg_walrus::rate_limit::{check_rate_limit, update_rate_limit_state_after_adjustment,
    RateLimitResult};
use pg_walrus::state::{now_unix, read_state, reset_state, update_state, WalrusState};

fn zero_state() -> WalrusState {
    WalrusState {
        quiet_intervals: 0,
        total_adjustments: 0,
        prev_requested: 0,
        last_check_time: 0,
        last_adjustment_time: 0,
        changes_this_hour: 0,
        hour_window_start: 0,
    }
}

#[test]
fn test_cooldown_boundary_allows_adjustment() {
    // With a 300-second cooldown and the last adjustment exactly 300
    // seconds ago, the boundary instant is allowed...
    let now: i64 = 1_000_000;
    let state = WalrusState { last_adjustment_time: now - 300, ..zero_state() };
    assert_eq!(check_rate_limit(&state, now, 300, 4), RateLimitResult::Allowed);

    // ...while one second less (last adjustment 299 seconds ago) blocks.
    let state = WalrusState { last_adjustment_time: now - 299, ..zero_state() };
    assert_eq!(
        check_rate_limit(&state, now, 300, 4),
        RateLimitResult::BlockedCooldown {
            cooldown_sec: 300,
            remaining_sec: 1,
            last_adjustment_time: now - 299,
        }
    );
}

#[test]
fn test_zero_max_changes_blocks_all() {
    // An hourly cap of zero blocks, whatever the rest of the state says
    let now: i64 = 1_000_000;
    let states = [
        zero_state(),
        WalrusState { last_adjustment_time: now - 10_000, ..zero_state() },
        WalrusState { changes_this_hour: 0, hour_window_start: 0, quiet_intervals: 50, ..zero_state() },
    ];
    for state in states {
        let verdict = check_rate_limit(&state, now, 0, 0);
        assert!(matches!(verdict, RateLimitResult::BlockedHourly { max_changes_per_hour: 0, .. }));
    }

    // And no cycle with a zero cap ever plans an application
    let cfg = Config { max_changes_per_hour: 0, ..Config::default() };
    let state = WalrusState { prev_requested: 10, ..zero_state() };
    let plan = plan_cycle(&state, false, 20, 1024, 300, now, &cfg);
    assert!(matches!(plan.action, CycleAction::RecordSkipped { .. }));
}

#[test]
fn test_hourly_limit_blocks_within_window() {
    let now: i64 = 1_000_000;
    let state = WalrusState {
        changes_this_hour: 4,
        hour_window_start: now - 100,
        ..zero_state()
    };
    assert_eq!(
        check_rate_limit(&state, now, 0, 4),
        RateLimitResult::BlockedHourly {
            max_changes_per_hour: 4,
            changes_this_hour: 4,
            hour_window_start: now - 100,
        }
    );

    // After the window expires the same count no longer blocks
    let state = WalrusState {
        changes_this_hour: 4,
        hour_window_start: now - 3600,
        ..zero_state()
    };
    assert_eq!(check_rate_limit(&state, now, 0, 4), RateLimitResult::Allowed);
}

#[test]
fn test_clock_skew_extends_cooldown() {
    // A last-adjustment stamp ahead of the clock only extends the
    // cooldown: 600 seconds ahead plus a 300-second cooldown blocks
    // for 900 seconds.
    let now: i64 = 1_000_000;
    let state = WalrusState { last_adjustment_time: now + 600, ..zero_state() };
    assert_eq!(
        check_rate_limit(&state, now, 300, 4),
        RateLimitResult::BlockedCooldown {
            cooldown_sec: 300,
            remaining_sec: 900,
            last_adjustment_time: now + 600,
        }
    );
}

#[test]
fn test_rate_limit_bookkeeping_window() {
    let now: i64 = 1_000_000;

    // No window yet: the first adjustment starts one
    let mut state = zero_state();
    update_rate_limit_state_after_adjustment(&mut state, now);
    assert_eq!(state.changes_this_hour, 1);
    assert_eq!(state.hour_window_start, now);

    // Within the window the count increments
    update_rate_limit_state_after_adjustment(&mut state, now + 100);
    assert_eq!(state.changes_this_hour, 2);
    assert_eq!(state.hour_window_start, now);

    // After expiry a fresh window starts
    update_rate_limit_state_after_adjustment(&mut state, now + 3600);
    assert_eq!(state.changes_this_hour, 1);
    assert_eq!(state.hour_window_start, now + 3600);
}

#[test]
fn test_first_cycle_establishes_baseline() {
    let cfg = Config::default();
    let state = zero_state();
    let plan = plan_cycle(&state, true, 42, 1024, 300, 5_000, &cfg);
    assert!(matches!(plan.action, CycleAction::BaselineEstablished));
    assert_eq!(plan.next_state.prev_requested, 42);
    assert_eq!(plan.next_state.last_check_time, 5_000);
    assert_eq!(plan.next_state.quiet_intervals, 0);
}

#[test]
fn test_metric_unavailable_skips_cycle() {
    let cfg = Config::default();
    let state = WalrusState { prev_requested: 10, last_check_time: 777, ..zero_state() };
    let plan = plan_cycle(&state, false, -1, 1024, 300, 5_000, &cfg);
    assert!(matches!(plan.action, CycleAction::MetricUnavailable));
    // Nothing moves, not even the last-checked stamp
    assert_eq!(plan.next_state, state);
}

#[test]
fn test_quiet_intervals_accumulate_and_reset() {
    let cfg = Config::default();
    let now: i64 = 1_000_000;

    // Two quiet cycles accumulate...
    let s0 = WalrusState { prev_requested: 10, ..zero_state() };
    let plan1 = plan_cycle(&s0, false, 11, 1024, 300, now, &cfg);
    assert!(matches!(plan1.action, CycleAction::Idle));
    assert_eq!(plan1.next_state.quiet_intervals, 1);
    assert_eq!(plan1.next_state.prev_requested, 11);

    let plan2 = plan_cycle(&plan1.next_state, false, 12, 1024, 300, now + 300, &cfg);
    assert_eq!(plan2.next_state.quiet_intervals, 2);

    // ...and the first grow condition clears them at once, even though
    // shrink conditions were building up.
    let plan3 = plan_cycle(&plan2.next_state, false, 20, 1024, 300, now + 600, &cfg);
    assert_eq!(plan3.next_state.quiet_intervals, 0);
    assert!(matches!(plan3.action, CycleAction::ApplyChange { .. }));
}

#[test]
fn test_grow_cycle_applies_and_commits() {
    let cfg = Config::default();
    let now: i64 = 1_000_000;
    let state = WalrusState { prev_requested: 10, quiet_intervals: 2, ..zero_state() };

    // Delta 3 grows 512 to 2048
    let plan = plan_cycle(&state, false, 13, 512, 300, now, &cfg);
    match plan.action {
        CycleAction::ApplyChange { new_size, record } => {
            assert_eq!(new_size, 2048);
            assert_eq!(record.action, HistoryAction::Increase);
            assert_eq!(record.old_size_mb, 512);
            assert_eq!(record.new_size_mb, 2048);
            assert_eq!(record.forced_checkpoints, 13);
            assert_eq!(record.checkpoint_timeout_sec, 300);
            assert_eq!(record.detail, HistoryDetail::Grow { delta: 3, calculated_size_mb: 2048 });
        },
        other => panic!("expected an applied change, got {:?}", other),
    }

    // Committing the successful application books the adjustment
    let mut committed = plan.next_state;
    commit_applied(&mut committed, now + 1, false);
    assert_eq!(committed.total_adjustments, 1);
    assert_eq!(committed.last_adjustment_time, now + 1);
    assert_eq!(committed.changes_this_hour, 1);
    assert_eq!(committed.hour_window_start, now + 1);
}

#[test]
fn test_grow_cycle_capped_record() {
    let cfg = Config { max_size_mb: 2048, ..Config::default() };
    let now: i64 = 1_000_000;
    let state = WalrusState { prev_requested: 10, ..zero_state() };
    let plan = plan_cycle(&state, false, 13, 1024, 300, now, &cfg);
    match plan.action {
        CycleAction::ApplyChange { new_size, record } => {
            assert_eq!(new_size, 2048);
            assert_eq!(record.action, HistoryAction::Capped);
            assert_eq!(
                record.detail,
                HistoryDetail::GrowCapped { delta: 3, calculated_size_mb: 4096, walrus_max_mb: 2048 }
            );
        },
        other => panic!("expected an applied change, got {:?}", other),
    }
}

#[test]
fn test_grow_cycle_already_at_maximum_is_silent() {
    let cfg = Config { max_size_mb: 1024, ..Config::default() };
    let state = WalrusState { prev_requested: 10, ..zero_state() };
    let plan = plan_cycle(&state, false, 13, 1024, 300, 1_000, &cfg);
    assert!(matches!(plan.action, CycleAction::Idle));
    assert_eq!(plan.next_state.quiet_intervals, 0);
}

#[test]
fn test_blocked_grow_writes_skipped_record() {
    let cfg = Config::default();
    let now: i64 = 1_000_000;
    let state = WalrusState {
        prev_requested: 10,
        last_adjustment_time: now - 100,  // cooldown of 300 still running
        ..zero_state()
    };
    let plan = plan_cycle(&state, false, 13, 512, 300, now, &cfg);
    match plan.action {
        CycleAction::RecordSkipped { record } => {
            assert_eq!(record.action, HistoryAction::Skipped);
            assert_eq!(
                record.detail,
                HistoryDetail::RateLimited {
                    verdict: RateLimitResult::BlockedCooldown {
                        cooldown_sec: 300,
                        remaining_sec: 200,
                        last_adjustment_time: now - 100,
                    },
                }
            );
        },
        other => panic!("expected a skipped record, got {:?}", other),
    }
    // Rate-limit bookkeeping does not advance on a block
    assert_eq!(plan.next_state.changes_this_hour, 0);
    assert_eq!(plan.next_state.total_adjustments, 0);
}

#[test]
fn test_blocked_shrink_keeps_quiet_intervals() {
    let cfg = Config { max_changes_per_hour: 0, ..Config::default() };
    let now: i64 = 1_000_000;
    let state = WalrusState { prev_requested: 10, quiet_intervals: 6, ..zero_state() };
    let plan = plan_cycle(&state, false, 10, 4096, 300, now, &cfg);
    assert!(matches!(plan.action, CycleAction::RecordSkipped { .. }));
    // The accumulated quiet intervals survive the block for the retry
    assert_eq!(plan.next_state.quiet_intervals, 7);
}

#[test]
fn test_dry_run_grow_counts_against_limits() {
    let cfg = Config { dry_run: true, ..Config::default() };
    let now: i64 = 1_000_000;
    let state = WalrusState { prev_requested: 10, ..zero_state() };
    let plan = plan_cycle(&state, false, 13, 512, 300, now, &cfg);
    match plan.action {
        CycleAction::RecordDryRun { record } => {
            assert_eq!(record.action, HistoryAction::DryRun);
            assert_eq!(record.new_size_mb, 2048);
            assert_eq!(record.detail, HistoryDetail::Grow { delta: 3, calculated_size_mb: 2048 });
        },
        other => panic!("expected a dry-run record, got {:?}", other),
    }
    // The simulated change still consumes the automatic budget...
    assert_eq!(plan.next_state.changes_this_hour, 1);
    assert_eq!(plan.next_state.hour_window_start, now);
    // ...but no real adjustment is booked
    assert_eq!(plan.next_state.total_adjustments, 0);
    assert_eq!(plan.next_state.last_adjustment_time, 0);
}

#[test]
fn test_dry_run_shrink_resets_quiet_intervals() {
    let cfg = Config { dry_run: true, ..Config::default() };
    let now: i64 = 1_000_000;
    let state = WalrusState { prev_requested: 10, quiet_intervals: 4, ..zero_state() };
    let plan = plan_cycle(&state, false, 10, 4096, 300, now, &cfg);
    match plan.action {
        CycleAction::RecordDryRun { record } => {
            assert_eq!(record.new_size_mb, 3072);
            assert_eq!(
                record.detail,
                HistoryDetail::Shrink { shrink_factor_hundredths: 75, quiet_intervals: 5 }
            );
        },
        other => panic!("expected a dry-run record, got {:?}", other),
    }
    // The simulated shrink was a made decision: the counter resets
    assert_eq!(plan.next_state.quiet_intervals, 0);
    assert_eq!(plan.next_state.changes_this_hour, 1);
}

#[test]
fn test_shrink_cycle_applies_and_commits() {
    let cfg = Config::default();
    let now: i64 = 1_000_000;
    let state = WalrusState { prev_requested: 10, quiet_intervals: 4, ..zero_state() };
    let plan = plan_cycle(&state, false, 10, 4096, 300, now, &cfg);
    match plan.action {
        CycleAction::ApplyChange { new_size, record } => {
            assert_eq!(new_size, 3072);
            assert_eq!(record.action, HistoryAction::Decrease);
        },
        other => panic!("expected an applied change, got {:?}", other),
    }
    // Quiet intervals stay up until the application actually succeeds
    assert_eq!(plan.next_state.quiet_intervals, 5);
    let mut committed = plan.next_state;
    commit_applied(&mut committed, now + 1, true);
    assert_eq!(committed.quiet_intervals, 0);
    assert_eq!(committed.total_adjustments, 1);
}

#[test]
fn test_shrink_gates_are_silent() {
    let now: i64 = 1_000_000;
    let state = WalrusState { prev_requested: 10, quiet_intervals: 1, ..zero_state() };

    // Shrink disabled
    let cfg = Config { shrink_enabled: false, ..Config::default() };
    assert!(matches!(plan_cycle(&state, false, 10, 4096, 300, now, &cfg).action, CycleAction::Idle));

    // Not enough quiet intervals
    let cfg = Config::default();
    assert!(matches!(plan_cycle(&state, false, 10, 4096, 300, now, &cfg).action, CycleAction::Idle));

    // At the floor
    let state_at_floor = WalrusState { quiet_intervals: 9, ..state };
    assert!(matches!(
        plan_cycle(&state_at_floor, false, 10, 1024, 300, now, &cfg).action,
        CycleAction::Idle
    ));
}

#[test]
fn test_analyze_permission_and_disabled() {
    let state = WalrusState { prev_requested: 10, ..zero_state() };
    let cfg = Config::default();
    assert_eq!(
        analyze_decision(&state, 1024, 13, &cfg, true, false),
        AnalyzeOutcome::PermissionDenied
    );
    let disabled = Config { enabled: false, ..cfg };
    assert_eq!(
        analyze_decision(&state, 1024, 13, &disabled, false, false),
        AnalyzeOutcome::EngineDisabled
    );
}

#[test]
fn test_analyze_applies_increase() {
    let state = WalrusState { prev_requested: 10, ..zero_state() };
    let cfg = Config::default();
    match analyze_decision(&state, 512, 13, &cfg, true, true) {
        AnalyzeOutcome::Apply { recommendation, new_size } => {
            assert_eq!(new_size, 2048);
            assert_eq!(recommendation.action, Action::Increase);
        },
        other => panic!("expected an application, got {:?}", other),
    }
}

#[test]
fn test_analyze_without_apply_never_applies() {
    let state = WalrusState { prev_requested: 10, ..zero_state() };
    let cfg = Config::default();
    assert!(matches!(
        analyze_decision(&state, 512, 13, &cfg, false, true),
        AnalyzeOutcome::NotApplied { .. }
    ));
}

#[test]
fn test_manual_adjust_bypasses_rate_limits() {
    let mut state = WalrusState {
        prev_requested: 10,
        changes_this_hour: 3,
        hour_window_start: 999_000,
        quiet_intervals: 2,
        ..zero_state()
    };
    commit_manual_apply(&mut state, 1_000_000, Action::Increase);
    // The adjustment is booked and stamped...
    assert_eq!(state.total_adjustments, 1);
    assert_eq!(state.last_adjustment_time, 1_000_000);
    assert_eq!(state.quiet_intervals, 0);
    // ...but the automatic budget is untouched
    assert_eq!(state.changes_this_hour, 3);
    assert_eq!(state.hour_window_start, 999_000);
}

#[test]
fn test_manual_decrease_keeps_quiet_intervals() {
    let mut state = WalrusState { quiet_intervals: 2, ..zero_state() };
    commit_manual_apply(&mut state, 500, Action::Decrease);
    assert_eq!(state.quiet_intervals, 2);
}

#[test]
fn test_reset_clears_rate_limit_state() {
    let mut state = WalrusState {
        quiet_intervals: 7,
        total_adjustments: 12,
        prev_requested: 99,
        last_check_time: 123,
        last_adjustment_time: 456,
        changes_this_hour: 3,
        hour_window_start: 1_234_567_890,
    };
    reset_state(&mut state);
    assert_eq!(state, zero_state());
}

#[test]
fn test_read_and_update_state() {
    let mut state = zero_state();
    update_state(&mut state, |s| WalrusState { quiet_intervals: s.quiet_intervals + 1, ..s });
    update_state(&mut state, |s| WalrusState { last_check_time: 42, ..s });
    let copy = read_state(&state);
    assert_eq!(copy.quiet_intervals, 1);
    assert_eq!(copy.last_check_time, 42);
}

#[test]
fn test_suppression_flag_is_one_shot() {
    let mut flag = true;
    assert!(should_skip_iteration(&mut flag));
    assert!(!flag);
    assert!(!should_skip_iteration(&mut flag));
}

#[test]
fn test_now_unix_is_nonnegative() {
    assert!(now_unix() >= 0);
}

#[test]
fn test_status_rate_limiting_fields() {
    let now: i64 = 1_000_000;
    let state = WalrusState {
        last_adjustment_time: now - 100,
        changes_this_hour: 2,
        hour_window_start: now - 50,
        total_adjustments: 5,
        quiet_intervals: 1,
        prev_requested: 7,
        last_check_time: now - 10,
    };
    let cfg = Config::default();
    let report = status(&state, now, 4096, 300, true, &cfg);
    assert_eq!(report.cooldown_sec, 300);
    assert_eq!(report.max_changes_per_hour, 4);
    assert!(report.cooldown_active);
    assert_eq!(report.cooldown_remaining_sec, 200);
    assert_eq!(report.changes_this_hour, 2);
    assert_eq!(report.hour_window_start, now - 50);
    assert!(!report.hourly_limit_reached);
    assert!(report.at_ceiling);
    assert_eq!(report.total_adjustments, 5);

    // Once the cooldown has elapsed the derived view clears
    let report = status(&state, now + 300, 4096, 300, true, &cfg);
    assert!(!report.cooldown_active);
    assert_eq!(report.cooldown_remaining_sec, 0);
}
