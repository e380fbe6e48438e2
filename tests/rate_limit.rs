use webrust::rate_limit::{config_is_valid, RateLimitConfig, RateLimiter};

#[test]
fn burst_of_two_admits_two_then_refills_after_a_second() {
    let config = RateLimitConfig { requests_per_second: 2, burst_capacity: 2 };
    let t0: u64 = 5_000_000_000;
    let mut limiter = RateLimiter::new(&config, t0);
    assert!(limiter.try_acquire(t0));
    assert!(limiter.try_acquire(t0));
    assert!(!limiter.try_acquire(t0));
    assert!(limiter.try_acquire(t0 + 1_000_000_000));
}

#[test]
fn zero_rate_or_burst_is_refused() {
    assert!(!config_is_valid(&RateLimitConfig { requests_per_second: 0, burst_capacity: 2 }));
    assert!(!config_is_valid(&RateLimitConfig { requests_per_second: 2, burst_capacity: 0 }));
    assert!(config_is_valid(&RateLimitConfig { requests_per_second: 1, burst_capacity: 1 }));
}

#[test]
fn rate_of_one_refills_one_token_per_second() {
    let config = RateLimitConfig { requests_per_second: 1, burst_capacity: 1 };
    let mut limiter = RateLimiter::new(&config, 0);
    assert_eq!(limiter.rate(), 1);
    assert_eq!(limiter.burst(), 1);
    assert!(limiter.try_acquire(0));
    assert!(!limiter.try_acquire(500_000_000));
    assert!(limiter.try_acquire(1_000_000_000));
}

#[test]
fn refill_is_capped_at_the_burst() {
    let config = RateLimitConfig { requests_per_second: 10, burst_capacity: 3 };
    let mut limiter = RateLimiter::new(&config, 0);
    let later = 3_600_000_000_000;
    assert!(limiter.try_acquire(later));
    assert!(limiter.try_acquire(later));
    assert!(limiter.try_acquire(later));
    assert!(!limiter.try_acquire(later));
}

#[test]
fn a_clock_going_back_refills_nothing() {
    let config = RateLimitConfig { requests_per_second: 1, burst_capacity: 1 };
    let mut limiter = RateLimiter::new(&config, 10_000_000_000);
    assert!(limiter.try_acquire(10_000_000_000));
    assert!(!limiter.try_acquire(1));
}
