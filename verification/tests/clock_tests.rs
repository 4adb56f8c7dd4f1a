use speed_matrix::clock::{elapsed_between, millis_or_zero, now};

#[test]
fn clock_reads_a_time_after_the_epoch() {
    let first = now();
    assert!(first > 1_000_000_000_000);
    assert!(first < 100_000_000_000_000);
}

#[test]
fn elapsed_time_is_the_difference() {
    assert_eq!(elapsed_between(1_000, 9_500), 8_500);
    assert_eq!(elapsed_between(0, u128::MAX), u128::MAX);
    assert_eq!(elapsed_between(7, 7), 0);
}

#[test]
fn elapsed_time_is_never_negative() {
    assert_eq!(elapsed_between(9_500, 1_000), 0);
    assert_eq!(elapsed_between(u128::MAX, 0), 0);
}

#[test]
fn reading_before_the_epoch_counts_as_zero() {
    assert_eq!(millis_or_zero(None), 0);
    assert_eq!(millis_or_zero(Some(0)), 0);
    assert_eq!(millis_or_zero(Some(1_700_000_000_123)), 1_700_000_000_123);
    assert_eq!(millis_or_zero(Some(u128::MAX)), u128::MAX);
}
