//! Tests of the grow and shrink arithmetic as the control loop uses it.

use pg_walrus::algorithm::{calculate_new_size, calculate_shrink_size};

#[test]
fn worker_test_new_size_calculation() {
    // 1024 MB with 3 forced checkpoints: 1024 * 4 = 4096
    assert_eq!(calculate_new_size(1024, 3), 4096);

    // 2048 MB with 1 forced checkpoint: 2048 * 2 = 4096
    assert_eq!(calculate_new_size(2048, 1), 4096);

    // 512 MB with 2 forced checkpoints: 512 * 3 = 1536
    assert_eq!(calculate_new_size(512, 2), 1536);

    // Minimum case: 1 MB with 0 delta
    assert_eq!(calculate_new_size(1, 0), 1);
}

#[test]
fn worker_test_overflow_protection() {
    let result = calculate_new_size(i32::MAX / 2, 2);
    assert_eq!(result, i32::MAX, "Should saturate to i32::MAX on overflow");

    let result = calculate_new_size(i32::MAX, 1);
    assert_eq!(result, i32::MAX, "Should saturate to i32::MAX on overflow");

    let result = calculate_new_size(1_000_000_000, 2);
    assert_eq!(result, i32::MAX, "Should saturate to i32::MAX on overflow");
}

#[test]
fn worker_test_shrink_size_normal() {
    assert_eq!(calculate_shrink_size(4096, 75, 1024), 3072);
    assert_eq!(calculate_shrink_size(2048, 75, 1024), 1536);
    assert_eq!(calculate_shrink_size(1536, 75, 1024), 1152);
}

#[test]
fn worker_test_shrink_size_rounding_up() {
    assert_eq!(calculate_shrink_size(1001, 75, 100), 751);
    assert_eq!(calculate_shrink_size(1000, 75, 100), 750);
    assert_eq!(calculate_shrink_size(1003, 75, 100), 753);
    assert_eq!(calculate_shrink_size(101, 1, 1), 2);
}

#[test]
fn worker_test_shrink_size_clamped_to_min() {
    assert_eq!(calculate_shrink_size(2560, 75, 2048), 2048);
    assert_eq!(calculate_shrink_size(1024, 75, 1024), 1024);
    assert_eq!(calculate_shrink_size(900, 75, 1024), 1024);
}

#[test]
fn worker_test_shrink_size_different_factors() {
    assert_eq!(calculate_shrink_size(4096, 50, 1024), 2048);
    assert_eq!(calculate_shrink_size(4096, 90, 1024), 3687);
    assert_eq!(calculate_shrink_size(4096, 10, 1024), 1024);
}

#[test]
fn test_shrink_size_fractional_mb() {
    // 1001 MB at 75/100 is 750.75: rounds up to 751
    assert_eq!(calculate_shrink_size(1001, 75, 100), 751);
}

#[test]
fn worker_test_shrink_size_large_value() {
    let result = calculate_shrink_size(i32::MAX, 99, 1024);
    assert_eq!(result, 2126008811);
    assert!(result < i32::MAX);
}
