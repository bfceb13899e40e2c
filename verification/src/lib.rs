//! Adaptive sizing engine for a write-ahead-log capacity parameter.
//!
//! The library watches a single monotonically increasing event counter
//! (forced checkpoints) and decides when the capacity ceiling of the
//! monitored system should grow or shrink.  Every decision — the grow and
//! shrink arithmetic, the confidence score, the quiet-interval state
//! machine, the two-tier rate limiter and the audit-record layout — is a
//! pure function of explicit state and configuration values, with a
//! machine-checked contract.  The thin platform glue that reads the
//! counter, applies a new size and stores audit records lives outside the
//! verified core and exchanges only plain values with it.

pub mod algorithm;
pub mod config;
pub mod controller;
pub mod history;
pub mod interval;
pub mod query;
pub mod rate_limit;
pub mod state;
pub mod timefmt;

pub use algorithm::{Action, Reason, Recommendation};
pub use config::Config;
pub use controller::{CycleAction, CyclePlan};
pub use history::{HistoryAction, HistoryDetail, HistoryRecord};
pub use query::{AnalyzeOutcome, StatusReport};
pub use rate_limit::RateLimitResult;
pub use state::WalrusState;
