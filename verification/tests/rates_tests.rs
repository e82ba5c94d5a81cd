use benchmark_suite::clock::progress_fraction;
use benchmark_suite::lcg::lcg_next;
use benchmark_suite::rates::{
    mb_per_second, mean2, mean3, mean_or_zero, per_second, sat_mul, wrap_add,
};

#[test]
fn test_per_second_exact() {
    assert_eq!(per_second(1000, 1_000_000_000), 1000);
    assert_eq!(per_second(0, 1_000_000_000), 0);
    assert_eq!(per_second(3, 2_000_000_000), 1);
    // A huge count over a single nanosecond saturates.
    assert_eq!(per_second(u64::MAX, 1), u64::MAX);
}

#[test]
fn test_mb_per_second_exact() {
    assert_eq!(mb_per_second(1_048_576, 1_000_000_000), 1);
    assert_eq!(mb_per_second(10 * 1_048_576, 2_000_000_000), 5);
    assert_eq!(mb_per_second(1_048_575, 1_000_000_000), 0);
}

#[test]
fn test_means() {
    assert_eq!(mean2(1000, 800), 900);
    assert_eq!(mean2(u64::MAX, u64::MAX), u64::MAX);
    assert_eq!(mean3(100, 200, 150), 150);
    assert_eq!(mean3(0, 0, 1), 0);
    assert_eq!(mean_or_zero(500, 100), 5);
    assert_eq!(mean_or_zero(500, 0), 0);
}

#[test]
fn test_saturation_and_wrapping() {
    assert_eq!(sat_mul(2, 3), 6);
    assert_eq!(sat_mul(u64::MAX, 2), u64::MAX);
    assert_eq!(wrap_add(1, 2), 3);
    assert_eq!(wrap_add(u64::MAX, 1), 0);
    assert_eq!(wrap_add(u64::MAX, 5), 4);
}

#[test]
fn test_progress_fraction_exact() {
    assert_eq!(progress_fraction(0, 100), 0);
    assert_eq!(progress_fraction(50, 100), 5_000);
    assert_eq!(progress_fraction(100, 100), 10_000);
    // Elapsed past the target clamps to 100.00%.
    assert_eq!(progress_fraction(250, 100), 10_000);
}

#[test]
fn test_lcg_is_deterministic_and_matches_recurrence() {
    let s1 = lcg_next(12345);
    assert_eq!(s1, 12345u64.wrapping_mul(1_103_515_245).wrapping_add(12_345));
    assert_eq!(lcg_next(12345), s1);
    assert_ne!(lcg_next(s1), s1);
}
