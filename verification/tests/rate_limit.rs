use keylime_agent::rate_limit::{RateLimiter, WINDOW_MS};

#[test]
fn first_requests_of_a_window_are_let_through() {
    for limit in [1u32, 2, 5, 30] {
        let mut limiter = RateLimiter::new();
        for i in 0..(limit + 10) {
            let now = 1_000 + u64::from(i) * 10;
            let admitted = limiter.check_rate_limit("10.0.0.1", limit, now);
            assert_eq!(admitted, i < limit, "limit {limit}, request {i}");
        }
        assert_eq!(limiter.window("10.0.0.1"), Some((limit + 10, 1_000)));
    }
}

#[test]
fn window_starts_again_after_sixty_seconds() {
    let mut limiter = RateLimiter::new();
    assert!(limiter.check_rate_limit("peer", 1, 5_000));
    assert!(!limiter.check_rate_limit("peer", 1, 5_001));
    assert!(!limiter.check_rate_limit("peer", 1, 5_000 + WINDOW_MS));
    assert_eq!(limiter.window("peer"), Some((3, 5_000)));
    assert!(limiter.check_rate_limit("peer", 1, 5_000 + WINDOW_MS + 1));
    assert_eq!(limiter.window("peer"), Some((1, 5_000 + WINDOW_MS + 1)));
    assert!(!limiter.check_rate_limit("peer", 1, 5_000 + WINDOW_MS + 2));
}

#[test]
fn peers_are_counted_apart() {
    let mut limiter = RateLimiter::new();
    assert!(limiter.check_rate_limit("a", 1, 0));
    assert!(limiter.check_rate_limit("b", 1, 0));
    assert!(!limiter.check_rate_limit("a", 1, 1));
    assert!(!limiter.check_rate_limit("b", 1, 1));
    assert!(limiter.check_rate_limit("c", 1, 1));
    assert_eq!(limiter.window("a"), Some((2, 0)));
    assert_eq!(limiter.window("c"), Some((1, 1)));
    assert_eq!(limiter.window("d"), None);
}

#[test]
fn limit_of_zero_admits_none() {
    let mut limiter = RateLimiter::new();
    for i in 0..1000 {
        assert!(!limiter.check_rate_limit("peer", 0, i));
    }
    assert_eq!(limiter.window("peer"), Some((1000, 0)));
    assert!(!limiter.check_rate_limit("peer", 0, 2 * WINDOW_MS));
    assert_eq!(limiter.window("peer"), Some((1, 2 * WINDOW_MS)));
    assert!(!limiter.check_rate_limit("other", 0, 5));
}

#[test]
fn clock_that_goes_backwards_keeps_the_window() {
    let mut limiter = RateLimiter::new();
    assert!(limiter.check_rate_limit("peer", 2, 100_000));
    assert!(limiter.check_rate_limit("peer", 2, 10));
    assert!(!limiter.check_rate_limit("peer", 2, 20));
    assert_eq!(limiter.window("peer"), Some((3, 100_000)));
}

#[test]
fn window_is_sixty_seconds() {
    assert_eq!(WINDOW_MS, 60_000);
}
