//! The audit-trail record: one entry per decision point, with enough
//! structured detail to reconstruct why the engine acted as it did.
//!
//! Storage of the records is an external collaborator; the library fixes
//! the shape and content of every record and the retention rule that
//! decides which stored records are purged.

use vstd::prelude::*;

use crate::rate_limit::RateLimitResult;

verus! {

/// What kind of decision point an audit record describes.
#[derive(Copy, Clone, Debug, PartialEq, Eq, Structural)]
pub enum HistoryAction {
    /// The size was grown.
    Increase,
    /// The size was shrunk.
    Decrease,
    /// The size was grown, but to the configured ceiling rather than the
    /// computed target.
    Capped,
    /// A decision was made and counted, but not applied (dry-run mode).
    DryRun,
    /// A decision was blocked by the rate limiter.
    Skipped,
}

/// Action-specific detail of an audit record.
#[derive(Copy, Clone, Debug, PartialEq, Eq, Structural)]
pub enum HistoryDetail {
    /// A grow decision: the delta that triggered it and the raw
    /// (uncapped) target it computed.
    Grow { delta: i64, calculated_size_mb: i32 },
    /// A grow decision whose raw target exceeded the ceiling.
    GrowCapped { delta: i64, calculated_size_mb: i32, walrus_max_mb: i32 },
    /// A shrink decision: the factor used and the quiet intervals that
    /// justified it.
    Shrink { shrink_factor_hundredths: i32, quiet_intervals: i32 },
    /// A decision the rate limiter blocked, with its verdict.
    RateLimited { verdict: RateLimitResult },
    /// A manually requested application, with the recommendation's
    /// confidence.
    Manual { confidence: i32 },
}

/// One append-only audit record.  The storage engine stamps the time of
/// insertion; everything else is fixed here.
#[derive(Copy, Clone, Debug, PartialEq, Eq, Structural)]
pub struct HistoryRecord {
    /// The decision outcome being recorded.
    pub action: HistoryAction,
    /// Size in effect before the decision, in MB.
    pub old_size_mb: i32,
    /// Size the decision aimed at, in MB.
    pub new_size_mb: i32,
    /// The monitored counter's value at decision time.
    pub forced_checkpoints: i64,
    /// Length of the measurement interval, in seconds.
    pub checkpoint_timeout_sec: i32,
    /// Action-specific numbers behind the decision.
    pub detail: HistoryDetail,
}

/// The instant separating retained records from purged ones:
/// `now - retention_days` in seconds.
pub open spec fn spec_retention_cutoff(now: int, retention_days: int) -> int {
    now - retention_days * 86400
}

/// Compute the retention cutoff for a purge pass.  Records stamped
/// strictly before the cutoff are deleted; with a retention of zero days
/// the cutoff is `now`, so everything already written is purged.
pub fn retention_cutoff(now: i64, retention_days: i32) -> (c: i64)
    requires
        now >= 0,
        0 <= retention_days <= 3650,
    ensures
        c as int == spec_retention_cutoff(now as int, retention_days as int),
{
    now - (retention_days as i64) * 86400
}

/// Whether a record stamped at `record_time` falls outside the retention
/// window and should be purged.
pub fn record_expired(record_time: i64, now: i64, retention_days: i32) -> (b: bool)
    requires
        now >= 0,
        0 <= retention_days <= 3650,
    ensures
        b == ((record_time as int) < spec_retention_cutoff(now as int, retention_days as int)),
{
    record_time < now - (retention_days as i64) * 86400
}

} // verus!
