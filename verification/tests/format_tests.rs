//! Tests of timestamp rendering, interval parsing and retention.

use pg_walrus::history::{record_expired, retention_cutoff};
use pg_walrus::interval::parse_interval_to_secs;
use pg_walrus::timefmt::{is_leap_year, unix_timestamp_to_iso};

#[test]
fn test_iso_zero_means_never() {
    assert_eq!(unix_timestamp_to_iso(0), None);
}

#[test]
fn test_iso_rendering() {
    assert_eq!(
        unix_timestamp_to_iso(1735689600).as_deref(),
        Some("2025-01-01T00:00:00.000000+00:00")
    );
    assert_eq!(
        unix_timestamp_to_iso(951782400).as_deref(),
        Some("2000-02-29T00:00:00.000000+00:00")
    );
    assert_eq!(
        unix_timestamp_to_iso(1700000000).as_deref(),
        Some("2023-11-14T22:13:20.000000+00:00")
    );
    assert_eq!(
        unix_timestamp_to_iso(86399).as_deref(),
        Some("1970-01-01T23:59:59.000000+00:00")
    );
    assert_eq!(
        unix_timestamp_to_iso(4102444799).as_deref(),
        Some("2099-12-31T23:59:59.000000+00:00")
    );
}

#[test]
fn test_leap_year_rule() {
    assert!(is_leap_year(2000));
    assert!(is_leap_year(2024));
    assert!(!is_leap_year(1900));
    assert!(!is_leap_year(2023));
}

#[test]
fn test_parse_interval_plain_and_suffixed() {
    assert_eq!(parse_interval_to_secs("300"), 300);
    assert_eq!(parse_interval_to_secs("300s"), 300);
    assert_eq!(parse_interval_to_secs("5min"), 300);
    assert_eq!(parse_interval_to_secs("2h"), 7200);
    assert_eq!(parse_interval_to_secs("1d"), 86400);
    assert_eq!(parse_interval_to_secs(" 42 "), 42);
    assert_eq!(parse_interval_to_secs("5 min"), 300);
}

#[test]
fn test_parse_interval_millis_round_down() {
    assert_eq!(parse_interval_to_secs("750ms"), 0);
    assert_eq!(parse_interval_to_secs("2500ms"), 2);
}

#[test]
fn test_parse_interval_fallback() {
    assert_eq!(parse_interval_to_secs(""), 300);
    assert_eq!(parse_interval_to_secs("soon"), 300);
    assert_eq!(parse_interval_to_secs("12x"), 300);
    assert_eq!(parse_interval_to_secs("99999999999999999999999min"), 300);
}

#[test]
fn test_retention_cutoff_and_expiry() {
    let now: i64 = 1_000_000_000;
    assert_eq!(retention_cutoff(now, 7), now - 7 * 86400);

    // Zero retention purges everything already written
    assert_eq!(retention_cutoff(now, 0), now);
    assert!(record_expired(now - 1, now, 0));
    assert!(!record_expired(now, now, 0));

    // Seven-day retention keeps young records
    assert!(record_expired(now - 8 * 86400, now, 7));
    assert!(!record_expired(now - 86400, now, 7));
}
