use notify_listener::watchdog::{Watchdog, NANOS_PER_SECOND, STALE_AFTER_SECONDS};

#[test]
fn constants_are_the_documented_ones() {
    assert_eq!(NANOS_PER_SECOND, 1_000_000_000);
    assert_eq!(STALE_AFTER_SECONDS, 300);
}

#[test]
fn stale_only_when_the_timeout_is_exceeded() {
    let start: u128 = 1_000;
    let watchdog = Watchdog::new(start);
    assert!(!watchdog.is_stale(start, 300));
    assert!(!watchdog.is_stale(start + 299 * NANOS_PER_SECOND, 300));
    assert!(!watchdog.is_stale(start + 300 * NANOS_PER_SECOND, 300));
    assert!(watchdog.is_stale(start + 300 * NANOS_PER_SECOND + 1, 300));
    assert!(watchdog.is_stale(start + 301 * NANOS_PER_SECOND, 300));
}

#[test]
fn activity_restarts_the_count() {
    let mut watchdog = Watchdog::new(0);
    assert!(watchdog.is_stale(400 * NANOS_PER_SECOND, 300));
    watchdog.record_activity(400 * NANOS_PER_SECOND);
    assert!(!watchdog.is_stale(400 * NANOS_PER_SECOND, 300));
    assert!(!watchdog.is_stale(700 * NANOS_PER_SECOND, 300));
    assert!(watchdog.is_stale(700 * NANOS_PER_SECOND + 1, 300));
}

#[test]
fn reading_before_the_last_activity_is_not_stale() {
    let watchdog = Watchdog::new(500 * NANOS_PER_SECOND);
    assert!(!watchdog.is_stale(0, 300));
    assert!(!watchdog.is_stale(0, 0));
}

#[test]
fn zero_timeout_is_exceeded_by_any_silence() {
    let watchdog = Watchdog::new(10);
    assert!(!watchdog.is_stale(10, 0));
    assert!(watchdog.is_stale(11, 0));
}

#[test]
fn largest_values_do_not_overflow() {
    let watchdog = Watchdog::new(0);
    assert!(watchdog.is_stale(u128::MAX, u64::MAX));
    let limit = (u64::MAX as u128) * NANOS_PER_SECOND;
    assert!(!watchdog.is_stale(limit, u64::MAX));
    assert!(watchdog.is_stale(limit + 1, u64::MAX));
    let late = Watchdog::new(u128::MAX);
    assert!(!late.is_stale(u128::MAX, 0));
}
