use rate_limiter::RateLimiter;
use rate_limiter::NANOS_PER_SECOND;

/// One hundred tokens per second, in nanotokens per second.
const HUNDRED_PER_SECOND: u64 = 100 * NANOS_PER_SECOND;

fn exhaust_rate_limiter(limiter: &mut RateLimiter) {
    for _ in 0..100 {
        assert!(limiter.has_access_after_nanos(0));
    }
    assert!(!limiter.has_access_after_nanos(0));
}

#[test]
fn burst_admission_grants_floor_of_rate() {
    let mut limiter = RateLimiter::new(HUNDRED_PER_SECOND);
    assert_eq!(limiter.capacity(), 100);
    assert_eq!(limiter.tokens_available(), 100);
    exhaust_rate_limiter(&mut limiter);
    assert_eq!(limiter.tokens_available(), 0);
}

#[test]
fn tickets_regenerate_after_one_second() {
    let mut limiter = RateLimiter::new(HUNDRED_PER_SECOND);
    exhaust_rate_limiter(&mut limiter);

    // A full second restores the full burst: one grant on the delayed query,
    // then ninety-nine immediate ones, then a denial.
    assert!(limiter.has_access_after_nanos(NANOS_PER_SECOND));
    for _ in 0..99 {
        assert!(limiter.has_access_after_nanos(0));
    }
    assert!(!limiter.has_access_after_nanos(0));
}

#[test]
fn tickets_do_not_build_up_past_the_ceiling() {
    let mut limiter = RateLimiter::new(HUNDRED_PER_SECOND);
    exhaust_rate_limiter(&mut limiter);

    // Two idle seconds still refill only to the ceiling of one hundred.
    assert!(limiter.has_access_after_nanos(2 * NANOS_PER_SECOND));
    for _ in 0..99 {
        assert!(limiter.has_access_after_nanos(0));
    }
    assert!(!limiter.has_access_after_nanos(0));

    // The same holds after two idle hours.
    assert!(limiter.has_access_after_nanos(7200 * NANOS_PER_SECOND));
    assert_eq!(limiter.tokens_available(), 99);
}

#[test]
fn refill_needs_a_full_tokens_worth_of_time() {
    let mut limiter = RateLimiter::new(HUNDRED_PER_SECOND);
    exhaust_rate_limiter(&mut limiter);

    // At one hundred tokens per second a token takes ten million nanoseconds;
    // one nanosecond less accrues nothing.
    assert!(!limiter.has_access_after_nanos(9_999_999));
    assert!(limiter.has_access_after_nanos(10_000_000));
    assert_eq!(limiter.tokens_available(), 0);
}

#[test]
fn denial_is_idempotent() {
    let mut limiter = RateLimiter::new(HUNDRED_PER_SECOND);
    exhaust_rate_limiter(&mut limiter);
    for _ in 0..5 {
        assert!(!limiter.has_access_after_nanos(0));
        assert_eq!(limiter.tokens_available(), 0);
    }
}

#[test]
fn interleaved_callers_share_one_budget() {
    // Two callers' queries serialized by a lock arrive in some interleaved
    // total order; fifty each from a fresh limiter are all granted, and the
    // next query from either caller is denied.
    let mut limiter = RateLimiter::new(HUNDRED_PER_SECOND);
    let mut first_caller_grants = 0;
    let mut second_caller_grants = 0;
    for _ in 0..50 {
        if limiter.has_access_after_nanos(0) {
            first_caller_grants += 1;
        }
        if limiter.has_access_after_nanos(0) {
            second_caller_grants += 1;
        }
    }
    assert_eq!(first_caller_grants, 50);
    assert_eq!(second_caller_grants, 50);
    assert!(!limiter.has_access_after_nanos(0));
}

#[test]
fn fractional_rates_are_exact() {
    // Two and a half tokens per second: a ceiling of two, and a token every
    // four hundred million nanoseconds.
    let mut limiter = RateLimiter::new(2_500_000_000);
    assert_eq!(limiter.capacity(), 2);
    assert!(limiter.has_access_after_nanos(0));
    assert!(limiter.has_access_after_nanos(0));
    assert!(!limiter.has_access_after_nanos(0));
    assert!(!limiter.has_access_after_nanos(399_999_999));
    assert!(limiter.has_access_after_nanos(400_000_000));
}

#[test]
fn rate_below_one_token_per_second_never_grants() {
    // Half a token per second floors to a ceiling of zero: the bucket can
    // hold nothing, so every query is denied, however long the wait.
    let mut limiter = RateLimiter::new(500_000_000);
    assert_eq!(limiter.capacity(), 0);
    assert!(!limiter.has_access_after_nanos(0));
    assert!(!limiter.has_access_after_nanos(10 * NANOS_PER_SECOND));
    assert_eq!(limiter.tokens_available(), 0);
}

#[test]
fn tokens_available_tracks_grants() {
    let mut limiter = RateLimiter::new(3 * NANOS_PER_SECOND);
    assert_eq!(limiter.tokens_available(), 3);
    assert!(limiter.has_access_after_nanos(0));
    assert_eq!(limiter.tokens_available(), 2);
    assert!(limiter.has_access_after_nanos(0));
    assert_eq!(limiter.tokens_available(), 1);
    assert!(limiter.has_access_after_nanos(0));
    assert_eq!(limiter.tokens_available(), 0);
    assert!(!limiter.has_access_after_nanos(0));
}

#[test]
fn clock_backed_queries_grant_a_fresh_burst() {
    // Against the real monotonic clock, elapsed time only ever adds tokens,
    // so a fresh limiter grants its full burst no matter how slowly the loop
    // runs; the denial afterwards is timing-dependent and is not asserted.
    let mut limiter = RateLimiter::new(HUNDRED_PER_SECOND);
    for _ in 0..100 {
        assert!(limiter.has_access());
        assert!(limiter.tokens_available() <= 100);
    }
}
