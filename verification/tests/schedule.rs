use term_dash::schedule::{poll_timeout, tick_due, TICK_RATE};

#[test]
fn timeout_is_the_time_left_until_the_tick() {
    assert_eq!(poll_timeout(1000, 0), 1000);
    assert_eq!(poll_timeout(1000, 250), 750);
    assert_eq!(poll_timeout(1000, 999), 1);
}

#[test]
fn timeout_saturates_at_zero() {
    assert_eq!(poll_timeout(1000, 1000), 0);
    assert_eq!(poll_timeout(1000, 1001), 0);
    assert_eq!(poll_timeout(1000, u64::MAX), 0);
    assert_eq!(poll_timeout(0, 0), 0);
}

#[test]
fn tick_is_due_once_the_interval_has_passed() {
    assert!(!tick_due(1000, 0));
    assert!(!tick_due(1000, 999));
    assert!(tick_due(1000, 1000));
    assert!(tick_due(1000, 5000));
    assert!(tick_due(0, 0));
}

#[test]
fn waiting_out_the_timeout_makes_the_tick_due() {
    for elapsed in [0u64, 1, 499, 999, 1000, 1500] {
        let waited = elapsed + poll_timeout(TICK_RATE, elapsed);
        assert!(tick_due(TICK_RATE, waited));
        assert_eq!(waited, elapsed.max(TICK_RATE));
    }
}

#[test]
fn tick_rate_is_one_second() {
    assert_eq!(TICK_RATE, 1000);
}
