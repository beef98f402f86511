use financial_analysis::rate_limiter::{window_reset_time, RateLimiter};

#[test]
fn window_grants_exactly_the_budget() {
    // With a budget of three calls per window, the first three acquisitions
    // are granted and the fourth must wait for the window reset.
    let mut limiter = RateLimiter::new(3);
    assert!(limiter.try_acquire());
    assert!(limiter.try_acquire());
    assert!(limiter.try_acquire());
    assert_eq!(limiter.remaining(), 0);
    assert!(!limiter.try_acquire());
    assert!(!limiter.try_acquire());
}

#[test]
fn reset_opens_a_fresh_window() {
    let mut limiter = RateLimiter::new(2);
    assert!(limiter.try_acquire());
    assert!(limiter.try_acquire());
    assert!(!limiter.try_acquire());
    limiter.reset_window_at(61);
    assert_eq!(limiter.remaining(), 2);
    assert!(limiter.try_acquire());
}

#[test]
fn refused_acquisition_consumes_nothing() {
    let mut limiter = RateLimiter::new(1);
    assert!(limiter.try_acquire());
    assert!(!limiter.try_acquire());
    limiter.reset_window_at(61);
    // The refused attempts above did not eat into the new window.
    assert!(limiter.try_acquire());
}

#[test]
fn waiters_share_one_window_reset() {
    // Two workers exhaust the window and both wake at the same boundary.
    let mut limiter = RateLimiter::new(1);
    assert!(limiter.try_acquire());
    assert!(!limiter.try_acquire());
    // The first woken waiter starts the new window and takes its slot.
    limiter.reset_window_at(61);
    assert!(limiter.try_acquire());
    // The second waiter, woken by the same boundary, repeats the reset call:
    // it changes nothing, so the first waiter's slot is not erased and the
    // budget still holds.
    limiter.reset_window_at(61);
    assert_eq!(limiter.remaining(), 0);
    assert!(!limiter.try_acquire());
    // Only the next boundary starts a fresh window.
    limiter.reset_window_at(121);
    assert!(limiter.try_acquire());
}

#[test]
fn window_resets_one_second_past_the_minute() {
    assert_eq!(window_reset_time(0), 61);
    assert_eq!(window_reset_time(59), 61);
    assert_eq!(window_reset_time(60), 121);
    assert_eq!(window_reset_time(119), 121);
    assert_eq!(window_reset_time(121), 181);
}

#[test]
fn budget_of_one_serializes_callers() {
    let mut limiter = RateLimiter::new(1);
    assert_eq!(limiter.remaining(), 1);
    assert!(limiter.try_acquire());
    assert_eq!(limiter.remaining(), 0);
    assert!(!limiter.try_acquire());
}
