//! The sizing arithmetic and the recommendation decision tree.
//!
//! Everything here is a pure function of explicit inputs: the persistent
//! [`WalrusState`], the size currently in effect, the latest value of the
//! monitored checkpoint counter (negative when the metric source is
//! unavailable) and a [`Config`] snapshot.  The full decision tree is
//! captured by the specification function [`spec_recommendation`], which
//! the executable [`compute_recommendation`] provably implements.

use vstd::prelude::*;

use crate::config::Config;
use crate::state::WalrusState;

verus! {

/// What a recommendation asks for.
#[derive(Copy, Clone, Debug, PartialEq, Eq, Structural)]
pub enum Action {
    /// Checkpoint activity warrants a larger size.
    Increase,
    /// Sustained low activity warrants a smaller size.
    Decrease,
    /// The current size should stay as it is.
    NoChange,
    /// No recommendation can be computed (disabled, or metric missing).
    Error,
}

/// Why a recommendation came out the way it did, with the numbers that
/// justify it.  A closed set of variants instead of free-form text keeps
/// the explanation checkable; rendering to prose is presentation work.
#[derive(Copy, Clone, Debug, PartialEq, Eq, Structural)]
pub enum Reason {
    /// Automatic sizing is switched off.
    Disabled,
    /// The checkpoint statistics source reported itself unavailable.
    StatsUnavailable,
    /// No baseline counter value has been observed yet.
    AwaitingBaseline,
    /// A grow was indicated but the size is already at its ceiling.
    AlreadyAtMaximum { current_size_mb: i32, delta: i64 },
    /// Forced checkpoints call for growing to `new_size_mb`.
    GrowthReady { delta: i64, new_size_mb: i32 },
    /// As `GrowthReady`, but the raw target was clamped to the ceiling.
    GrowthCapped { delta: i64, new_size_mb: i32, calculated_size_mb: i32 },
    /// Activity is low but automatic shrinking is switched off.
    ShrinkDisabled { delta: i64 },
    /// Not enough consecutive quiet intervals have accumulated yet.
    AwaitingQuietIntervals { have: i32, needed: i32 },
    /// A shrink was indicated but the size is already at its floor.
    AlreadyAtMinimum { current_size_mb: i32, quiet_intervals: i32 },
    /// The shrink target would not actually reduce the size.
    ShrinkNotSmaller { target_mb: i32, current_size_mb: i32 },
    /// Sustained quiet intervals call for shrinking to `new_size_mb`.
    ShrinkReady { quiet_intervals: i32, new_size_mb: i32 },
}

/// The outcome of one sizing analysis.
#[derive(Copy, Clone, Debug, PartialEq, Eq, Structural)]
pub struct Recommendation {
    /// Size currently in effect, in MB.
    pub current_size_mb: i32,
    /// Recommended size in MB; equals `current_size_mb` when no change
    /// is called for.
    pub recommended_size_mb: i32,
    /// What the engine recommends.
    pub action: Action,
    /// Why, with the numbers behind the decision.
    pub reason: Reason,
    /// Data-quality confidence in the recommendation, 0 to 100.
    pub confidence: i32,
}

/// The grow target: `current * (delta + 1)`, saturated so it never
/// exceeds the largest representable positive size.
pub open spec fn spec_grow_target(current: int, delta: int) -> int {
    if current * (delta + 1) > i32::MAX as int {
        i32::MAX as int
    } else {
        current * (delta + 1)
    }
}

/// `ceil(a / b)` for non-negative `a` and positive `b`.
pub open spec fn spec_ceil_div(a: int, b: int) -> int {
    (a + b - 1) / b
}

/// The shrink target: `ceil(current * h / 100)` where `h` is the shrink
/// factor in hundredths, never below the configured floor.
pub open spec fn spec_shrink_target(current: int, hundredths: int, floor: int) -> int {
    let t = spec_ceil_div(current * hundredths, 100);
    if t >= floor {
        t
    } else {
        floor
    }
}

/// The confidence score: 0 when the metric is unavailable, otherwise a
/// base of 50 plus boosts for plentiful samples, an observed quiet
/// period, and an established baseline.
pub open spec fn spec_confidence(state: WalrusState, checkpoint_count: int) -> int {
    if checkpoint_count < 0 {
        0
    } else {
        50 + (if checkpoint_count > 10 {
            20int
        } else {
            0int
        }) + (if state.quiet_intervals > 0 {
            15int
        } else {
            0int
        }) + (if state.prev_requested > 0 {
            15int
        } else {
            0int
        })
    }
}

/// Compute the grow target for `current_size` after `delta` forced
/// checkpoints: `current_size * (delta + 1)`, saturating instead of
/// wrapping on overflow.
pub fn calculate_new_size(current_size: i32, delta: i64) -> (r: i32)
    requires
        current_size >= 0,
        delta >= 0,
    ensures
        r as int == spec_grow_target(current_size as int, delta as int),
{
    let c: i64 = current_size as i64;
    // Any multiplier of 2^31 or more saturates whenever `c >= 1`, so the
    // multiplier can be clamped there before the (i64-exact) product.
    let m: i64 = if delta >= 0x7fff_ffffi64 {
        0x8000_0000i64
    } else {
        delta + 1
    };
    proof {
        assert(c * m <= 0x7fff_ffffi64 * 0x8000_0000i64) by (nonlinear_arith)
            requires
                0 <= c <= 0x7fff_ffffi64,
                0 <= m <= 0x8000_0000i64,
        ;
        assert(c * m >= 0) by (nonlinear_arith)
            requires
                c >= 0,
                m >= 0,
        ;
    }
    let prod: i64 = c * m;
    if prod > 0x7fff_ffffi64 {
        proof {
            // The clamped product saturates exactly when the true one does.
            assert(current_size as int * (delta as int + 1) >= c * m) by (nonlinear_arith)
                requires
                    c == current_size as int,
                    c >= 0,
                    delta as int + 1 >= m,
                    m >= 1,
            ;
        }
        i32::MAX
    } else {
        proof {
            if m < delta as int + 1 {
                // The multiplier was clamped, so `c * m <= i32::MAX` with
                // `m >= 2^31` forces `c == 0`, where both products vanish.
                assert(c == 0) by (nonlinear_arith)
                    requires
                        c >= 0,
                        m >= 0x8000_0000i64,
                        c * m <= 0x7fff_ffffi64,
                ;
            }
        }
        prod as i32
    }
}

/// Compute the shrink target: `ceil(current_size * h / 100)` clamped up
/// to `min_size`.  Rounding is always upward, so the result never
/// under-sizes, and it never falls below the floor.
pub fn calculate_shrink_size(current_size: i32, shrink_factor_hundredths: i32, min_size: i32) -> (r:
    i32)
    requires
        current_size >= 0,
        1 <= shrink_factor_hundredths <= 99,
    ensures
        r as int == spec_shrink_target(
            current_size as int,
            shrink_factor_hundredths as int,
            min_size as int,
        ),
        r >= min_size,
{
    let c: i64 = current_size as i64;
    let h: i64 = shrink_factor_hundredths as i64;
    proof {
        assert(c * h <= 0x7fff_ffffi64 * 99) by (nonlinear_arith)
            requires
                0 <= c <= 0x7fff_ffffi64,
                0 <= h <= 99,
        ;
        assert(c * h >= 0) by (nonlinear_arith)
            requires
                c >= 0,
                h >= 0,
        ;
        assert(c * h <= c * 100) by (nonlinear_arith)
            requires
                c >= 0,
                h <= 100,
        ;
    }
    let num: i64 = c * h;
    let t64: i64 = (num + 99) / 100;
    proof {
        assert(t64 <= c);
        assert(t64 >= 0);
    }
    let t: i32 = t64 as i32;
    if t >= min_size {
        t
    } else {
        min_size
    }
}

/// Compute the data-quality confidence for a recommendation.
///
/// Returns 0 when `checkpoint_count` is negative (metric unavailable),
/// otherwise 50 plus 20 when the count exceeds 10, plus 15 when a quiet
/// period has been observed, plus 15 when a baseline is established.
pub fn compute_confidence(state: &WalrusState, checkpoint_count: i64) -> (c: i32)
    ensures
        c as int == spec_confidence(*state, checkpoint_count as int),
{
    if checkpoint_count < 0 {
        return 0;
    }
    let mut confidence: i32 = 50;
    if checkpoint_count > 10 {
        confidence += 20;
    }
    if state.quiet_intervals > 0 {
        confidence += 15;
    }
    if state.prev_requested > 0 {
        confidence += 15;
    }
    confidence
}

/// The confidence score stays within 0 to 100; it is 0 exactly when the
/// metric is unavailable, and 100 exactly when every boost applies.
pub proof fn lemma_confidence_bounds(state: WalrusState, checkpoint_count: int)
    ensures
        0 <= spec_confidence(state, checkpoint_count) <= 100,
        (spec_confidence(state, checkpoint_count) == 0) <==> (checkpoint_count < 0),
        (checkpoint_count >= 0 && checkpoint_count > 10 && state.quiet_intervals > 0
            && state.prev_requested > 0) ==> spec_confidence(state, checkpoint_count) == 100,
{
}

/// The shrink target never falls below the floor, and its ceiling
/// rounding is exact: scaled back up it covers the true product, while
/// one step less would fall short.
pub proof fn lemma_shrink_rounds_up(current: int, hundredths: int, floor: int)
    requires
        current >= 0,
        1 <= hundredths <= 99,
    ensures
        spec_shrink_target(current, hundredths, floor) >= floor,
        100 * spec_ceil_div(current * hundredths, 100) >= current * hundredths,
        100 * (spec_ceil_div(current * hundredths, 100) - 1) < current * hundredths,
{
    assert(current * hundredths >= 0) by (nonlinear_arith)
        requires
            current >= 0,
            hundredths >= 0,
    ;
    vstd::arithmetic::div_mod::lemma_fundamental_div_mod(current * hundredths + 99, 100);
}

/// The grow target equals the saturated product `current * (delta + 1)`
/// and never exceeds the largest representable positive size.
pub proof fn lemma_grow_target_saturates(current: int, delta: int)
    requires
        current >= 0,
        delta >= 0,
    ensures
        spec_grow_target(current, delta) == vstd::math::min(
            current * (delta + 1),
            i32::MAX as int,
        ),
        spec_grow_target(current, delta) <= i32::MAX as int,
{
}

/// The full recommendation decision tree, as one specification function.
///
/// In order: a disabled engine and an unavailable metric report an error;
/// a missing baseline defers with confidence capped at 50; a delta at or
/// above the threshold takes the grow path (target capped at the
/// ceiling); anything else takes the shrink path, which asks for a
/// decrease only when shrinking is enabled, enough quiet intervals have
/// accumulated, and the target is genuinely smaller than the current
/// size yet not below the floor.
pub open spec fn spec_recommendation(
    state: WalrusState,
    current_size: i32,
    current_requested: i64,
    cfg: Config,
) -> Recommendation {
    let cs = current_size;
    if !cfg.enabled {
        Recommendation {
            current_size_mb: cs,
            recommended_size_mb: cs,
            action: Action::Error,
            reason: Reason::Disabled,
            confidence: 0,
        }
    } else if current_requested < 0 {
        Recommendation {
            current_size_mb: cs,
            recommended_size_mb: cs,
            action: Action::Error,
            reason: Reason::StatsUnavailable,
            confidence: 0,
        }
    } else {
        let conf = spec_confidence(state, current_requested as int);
        if state.prev_requested <= 0 {
            Recommendation {
                current_size_mb: cs,
                recommended_size_mb: cs,
                action: Action::NoChange,
                reason: Reason::AwaitingBaseline,
                confidence: (if conf > 50 {
                    50int
                } else {
                    conf
                }) as i32,
            }
        } else {
            let delta = current_requested as int - state.prev_requested as int;
            if delta >= cfg.threshold as int {
                let calculated = spec_grow_target(cs as int, delta);
                let capped = calculated > cfg.max_size_mb as int;
                let new_size = if capped {
                    cfg.max_size_mb as int
                } else {
                    calculated
                };
                if cs as int >= new_size {
                    Recommendation {
                        current_size_mb: cs,
                        recommended_size_mb: cs,
                        action: Action::NoChange,
                        reason: Reason::AlreadyAtMaximum { current_size_mb: cs, delta: delta as i64 },
                        confidence: conf as i32,
                    }
                } else if capped {
                    Recommendation {
                        current_size_mb: cs,
                        recommended_size_mb: new_size as i32,
                        action: Action::Increase,
                        reason: Reason::GrowthCapped {
                            delta: delta as i64,
                            new_size_mb: new_size as i32,
                            calculated_size_mb: calculated as i32,
                        },
                        confidence: conf as i32,
                    }
                } else {
                    Recommendation {
                        current_size_mb: cs,
                        recommended_size_mb: new_size as i32,
                        action: Action::Increase,
                        reason: Reason::GrowthReady { delta: delta as i64, new_size_mb: new_size as i32 },
                        confidence: conf as i32,
                    }
                }
            } else {
                if !cfg.shrink_enabled {
                    Recommendation {
                        current_size_mb: cs,
                        recommended_size_mb: cs,
                        action: Action::NoChange,
                        reason: Reason::ShrinkDisabled { delta: delta as i64 },
                        confidence: conf as i32,
                    }
                } else if state.quiet_intervals < cfg.shrink_intervals {
                    Recommendation {
                        current_size_mb: cs,
                        recommended_size_mb: cs,
                        action: Action::NoChange,
                        reason: Reason::AwaitingQuietIntervals {
                            have: state.quiet_intervals,
                            needed: cfg.shrink_intervals,
                        },
                        confidence: conf as i32,
                    }
                } else if cs <= cfg.min_size_mb {
                    Recommendation {
                        current_size_mb: cs,
                        recommended_size_mb: cs,
                        action: Action::NoChange,
                        reason: Reason::AlreadyAtMinimum {
                            current_size_mb: cs,
                            quiet_intervals: state.quiet_intervals,
                        },
                        confidence: conf as i32,
                    }
                } else {
                    let t = spec_shrink_target(
                        cs as int,
                        cfg.shrink_factor_hundredths as int,
                        cfg.min_size_mb as int,
                    );
                    if t >= cs as int {
                        Recommendation {
                            current_size_mb: cs,
                            recommended_size_mb: cs,
                            action: Action::NoChange,
                            reason: Reason::ShrinkNotSmaller {
                                target_mb: t as i32,
                                current_size_mb: cs,
                            },
                            confidence: conf as i32,
                        }
                    } else {
                        Recommendation {
                            current_size_mb: cs,
                            recommended_size_mb: t as i32,
                            action: Action::Decrease,
                            reason: Reason::ShrinkReady {
                                quiet_intervals: state.quiet_intervals,
                                new_size_mb: t as i32,
                            },
                            confidence: conf as i32,
                        }
                    }
                }
            }
        }
    }
}

/// Compute a sizing recommendation from the persistent state, the size
/// currently in effect, the latest checkpoint-counter reading (negative
/// when unavailable) and a configuration snapshot.
///
/// The result is exactly [`spec_recommendation`] of the inputs: the same
/// state and metric always yield the identical recommendation.
pub fn compute_recommendation(
    state: &WalrusState,
    current_size: i32,
    current_requested: i64,
    cfg: &Config,
) -> (r: Recommendation)
    requires
        cfg.valid(),
        current_size >= 0,
    ensures
        r == spec_recommendation(*state, current_size, current_requested, *cfg),
{
    proof {
        lemma_confidence_bounds(*state, current_requested as int);
    }
    if !cfg.enabled {
        return Recommendation {
            current_size_mb: current_size,
            recommended_size_mb: current_size,
            action: Action::Error,
            reason: Reason::Disabled,
            confidence: 0,
        };
    }
    if current_requested < 0 {
        return Recommendation {
            current_size_mb: current_size,
            recommended_size_mb: current_size,
            action: Action::Error,
            reason: Reason::StatsUnavailable,
            confidence: 0,
        };
    }
    let confidence = compute_confidence(state, current_requested);
    if state.prev_requested <= 0 {
        return Recommendation {
            current_size_mb: current_size,
            recommended_size_mb: current_size,
            action: Action::NoChange,
            reason: Reason::AwaitingBaseline,
            confidence: if confidence > 50 {
                50
            } else {
                confidence
            },
        };
    }
    let delta: i64 = current_requested - state.prev_requested;
    if delta >= cfg.threshold as i64 {
        let calculated = calculate_new_size(current_size, delta);
        let capped = calculated > cfg.max_size_mb;
        let new_size = if capped {
            cfg.max_size_mb
        } else {
            calculated
        };
        if current_size >= new_size {
            Recommendation {
                current_size_mb: current_size,
                recommended_size_mb: current_size,
                action: Action::NoChange,
                reason: Reason::AlreadyAtMaximum { current_size_mb: current_size, delta },
                confidence,
            }
        } else if capped {
            Recommendation {
                current_size_mb: current_size,
                recommended_size_mb: new_size,
                action: Action::Increase,
                reason: Reason::GrowthCapped {
                    delta,
                    new_size_mb: new_size,
                    calculated_size_mb: calculated,
                },
                confidence,
            }
        } else {
            Recommendation {
                current_size_mb: current_size,
                recommended_size_mb: new_size,
                action: Action::Increase,
                reason: Reason::GrowthReady { delta, new_size_mb: new_size },
                confidence,
            }
        }
    } else {
        if !cfg.shrink_enabled {
            return Recommendation {
                current_size_mb: current_size,
                recommended_size_mb: current_size,
                action: Action::NoChange,
                reason: Reason::ShrinkDisabled { delta },
                confidence,
            };
        }
        if state.quiet_intervals < cfg.shrink_intervals {
            return Recommendation {
                current_size_mb: current_size,
                recommended_size_mb: current_size,
                action: Action::NoChange,
                reason: Reason::AwaitingQuietIntervals {
                    have: state.quiet_intervals,
                    needed: cfg.shrink_intervals,
                },
                confidence,
            };
        }
        if current_size <= cfg.min_size_mb {
            return Recommendation {
                current_size_mb: current_size,
                recommended_size_mb: current_size,
                action: Action::NoChange,
                reason: Reason::AlreadyAtMinimum {
                    current_size_mb: current_size,
                    quiet_intervals: state.quiet_intervals,
                },
                confidence,
            };
        }
        let target = calculate_shrink_size(current_size, cfg.shrink_factor_hundredths, cfg.min_size_mb);
        if target >= current_size {
            Recommendation {
                current_size_mb: current_size,
                recommended_size_mb: current_size,
                action: Action::NoChange,
                reason: Reason::ShrinkNotSmaller {
                    target_mb: target,
                    current_size_mb: current_size,
                },
                confidence,
            }
        } else {
            Recommendation {
                current_size_mb: current_size,
                recommended_size_mb: target,
                action: Action::Decrease,
                reason: Reason::ShrinkReady {
                    quiet_intervals: state.quiet_intervals,
                    new_size_mb: target,
                },
                confidence,
            }
        }
    }
}

/// Recommendations are idempotent: two recommendations computed from the
/// same state, size, metric reading and configuration are identical.
pub proof fn lemma_recommendation_deterministic(
    r1: Recommendation,
    r2: Recommendation,
    state: WalrusState,
    current_size: i32,
    current_requested: i64,
    cfg: Config,
)
    requires
        r1 == spec_recommendation(state, current_size, current_requested, cfg),
        r2 == spec_recommendation(state, current_size, current_requested, cfg),
    ensures
        r1 == r2,
{
}

/// On a first-ever cycle — no baseline counter value yet — an enabled
/// engine with an available metric always defers: the action is
/// `NoChange` with reason `AwaitingBaseline`, the size is left as it is,
/// and the confidence is capped at 50.
pub proof fn lemma_awaiting_baseline(
    state: WalrusState,
    current_size: i32,
    current_requested: i64,
    cfg: Config,
)
    requires
        cfg.enabled,
        current_requested >= 0,
        state.prev_requested == 0,
    ensures
        spec_recommendation(state, current_size, current_requested, cfg).action
            == Action::NoChange,
        spec_recommendation(state, current_size, current_requested, cfg).reason
            == Reason::AwaitingBaseline,
        spec_recommendation(state, current_size, current_requested, cfg).confidence <= 50,
        spec_recommendation(state, current_size, current_requested, cfg).recommended_size_mb
            == current_size,
{
    lemma_confidence_bounds(state, current_requested as int);
}

} // verus!

