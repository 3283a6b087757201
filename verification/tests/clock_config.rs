use connpool::clock::add_delay;
use connpool::{Config, Deadline, SteadyClock};

#[test]
fn remaining_counts_down_to_zero() {
    let deadline = Deadline::new(100, 50);
    assert_eq!(deadline.remaining(100), 50);
    assert_eq!(deadline.remaining(120), 30);
    assert_eq!(deadline.remaining(149), 1);
    assert_eq!(deadline.remaining(150), 0);
    assert_eq!(deadline.remaining(1_000), 0);
    assert!(!deadline.expired(149));
    assert!(deadline.expired(150));
    assert!(deadline.expired(u64::MAX));
}

#[test]
fn remaining_before_the_start_is_the_whole_timeout() {
    let deadline = Deadline::new(100, 50);
    assert_eq!(deadline.remaining(0), 50);
    assert_eq!(deadline.remaining(99), 50);
    assert!(!deadline.expired(0));
}

#[test]
fn remaining_never_grows_and_ends_at_the_deadline() {
    let deadline = Deadline::new(1_000, 250);
    let mut last = 250;
    for now in 1_000..1_400u64 {
        let left = deadline.remaining(now);
        assert!(left <= last);
        if left > 0 {
            assert_eq!(now + left, 1_250);
        } else {
            assert!(now >= 1_250);
        }
        last = left;
    }
}

#[test]
fn zero_timeout_is_over_at_every_instant() {
    for start in [0u64, 7, u64::MAX] {
        let deadline = Deadline::new(start, 0);
        for now in [0u64, 7, 8, u64::MAX] {
            assert!(deadline.expired(now));
            assert_eq!(deadline.remaining(now), 0);
        }
    }
}

#[test]
fn a_deadline_beyond_the_end_of_time_does_not_wrap() {
    let deadline = Deadline::new(u64::MAX - 10, 100);
    assert_eq!(deadline.remaining(u64::MAX - 10), 100);
    assert_eq!(deadline.remaining(u64::MAX), 90);
    assert!(!deadline.expired(u64::MAX));
}

#[test]
fn add_delay_saturates() {
    assert_eq!(add_delay(0, 0), 0);
    assert_eq!(add_delay(5, 1_000), 1_005);
    assert_eq!(add_delay(u64::MAX - 1, 1), u64::MAX);
    assert_eq!(add_delay(u64::MAX - 1, 2), u64::MAX);
    assert_eq!(add_delay(u64::MAX, u64::MAX), u64::MAX);
}

#[test]
fn to_instant_clamps_negative_counts() {
    assert_eq!(SteadyClock::to_instant(-1), 0);
    assert_eq!(SteadyClock::to_instant(i64::MIN), 0);
    assert_eq!(SteadyClock::to_instant(0), 0);
    assert_eq!(SteadyClock::to_instant(1_234), 1_234);
    assert_eq!(SteadyClock::to_instant(i64::MAX), i64::MAX as u64);
}

#[test]
fn steady_clock_starts_near_zero_and_does_not_run_backwards() {
    let clock = SteadyClock::new();
    let first = clock.now();
    assert!(first < 60_000);
    let mut last = first;
    for _ in 0..1_000 {
        let now = clock.now();
        assert!(now >= last);
        last = now;
    }
}

#[test]
fn steady_clock_follows_real_time() {
    let clock = SteadyClock::new();
    let before = clock.now();
    let spin = std::time::Instant::now();
    while spin.elapsed() < std::time::Duration::from_millis(30) {}
    let after = clock.now();
    assert!(after >= before + 29);
    assert!(after < before + 10_000);
}

#[test]
fn steady_clock_deadline_begins_now() {
    let clock = SteadyClock::new();
    let before = clock.now();
    let deadline = clock.deadline(500);
    let after = clock.now();
    assert_eq!(deadline.timeout, 500);
    assert!(before <= deadline.start && deadline.start <= after);
}

#[test]
fn config_keeps_what_it_was_given() {
    let config = Config::new(10, 3, 30_000, true, false).unwrap();
    assert_eq!(config.pool_size(), 10);
    assert_eq!(config.helper_threads(), 3);
    assert_eq!(config.connection_timeout(), 30_000);
    assert!(config.test_on_check_out());
    assert!(!config.initialization_fail_fast());
    let other = Config::new(1, 1, 0, false, true).unwrap();
    assert_eq!(other.connection_timeout(), 0);
    assert!(!other.test_on_check_out());
    assert!(other.initialization_fail_fast());
}

#[test]
fn config_refuses_an_empty_pool_or_no_helpers() {
    assert!(Config::new(0, 3, 100, true, true).is_none());
    assert!(Config::new(10, 0, 100, true, true).is_none());
    assert!(Config::new(0, 0, 100, true, true).is_none());
    assert!(Config::new(1, 1, 100, true, true).is_some());
    assert!(Config::new(u32::MAX, u32::MAX, u64::MAX, true, true).is_some());
}
