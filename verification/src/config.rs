//! The engine's configuration surface.
//!
//! Every knob is hot-reloadable in a deployment; the engine itself only
//! ever sees a snapshot of plain values, taken once per decision.  The
//! shrink factor is held in hundredths (a fraction `h/100` with
//! `1 <= h <= 99`), so the shrink arithmetic is exact integer
//! arithmetic.

use vstd::prelude::*;

verus! {

/// A snapshot of the engine's configuration values.
#[derive(Copy, Clone, Debug, PartialEq, Eq, Structural)]
pub struct Config {
    /// Master switch for automatic sizing.
    pub enabled: bool,
    /// Ceiling the engine never grows the size above, in MB.
    pub max_size_mb: i32,
    /// Forced checkpoints per interval that trigger a grow.
    pub threshold: i32,
    /// Switch for automatic shrinking.
    pub shrink_enabled: bool,
    /// Shrink factor as hundredths: the target is `ceil(size * h / 100)`.
    pub shrink_factor_hundredths: i32,
    /// Consecutive quiet intervals required before a shrink.
    pub shrink_intervals: i32,
    /// Floor the engine never shrinks the size below, in MB.
    pub min_size_mb: i32,
    /// Days audit records are retained; 0 purges everything.
    pub history_retention_days: i32,
    /// When set, decisions are logged and counted but never applied.
    pub dry_run: bool,
    /// Minimum seconds between automatic adjustments; 0 disables cooldown.
    pub cooldown_sec: i32,
    /// Automatic adjustments allowed per fixed one-hour window; 0 blocks
    /// every automatic adjustment (emergency stop).
    pub max_changes_per_hour: i32,
}

impl Config {
    /// The documented range of every knob.
    pub open spec fn valid(self) -> bool {
        &&& self.max_size_mb >= 2
        &&& 1 <= self.threshold <= 1000
        &&& 1 <= self.shrink_factor_hundredths <= 99
        &&& 1 <= self.shrink_intervals <= 1000
        &&& self.min_size_mb >= 1
        &&& 0 <= self.history_retention_days <= 3650
        &&& 0 <= self.cooldown_sec <= 86400
        &&& 0 <= self.max_changes_per_hour <= 1000
    }

    /// The default configuration a deployment starts with.
    pub open spec fn spec_default() -> Config {
        Config {
            enabled: true,
            max_size_mb: 4096,
            threshold: 2,
            shrink_enabled: true,
            shrink_factor_hundredths: 75,
            shrink_intervals: 5,
            min_size_mb: 1024,
            history_retention_days: 7,
            dry_run: false,
            cooldown_sec: 300,
            max_changes_per_hour: 4,
        }
    }
}

impl Default for Config {
    fn default() -> (c: Config)
        ensures
            c == Config::spec_default(),
            c.valid(),
    {
        Config {
            enabled: true,
            max_size_mb: 4096,
            threshold: 2,
            shrink_enabled: true,
            shrink_factor_hundredths: 75,
            shrink_intervals: 5,
            min_size_mb: 1024,
            history_retention_days: 7,
            dry_run: false,
            cooldown_sec: 300,
            max_changes_per_hour: 4,
        }
    }
}

} // verus!
