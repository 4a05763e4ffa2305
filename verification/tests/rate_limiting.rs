use api_gateway::rate_limit::{
    RateBucket, RateLimiter, _KeyExtactor, BURST_CAPACITY, FULL, KEY_HEADER, NANOS_TO_FULL,
    REFILL_PER_SECOND, TOKEN,
};
use api_gateway::response::GatewayError;

const SECOND: u64 = 1_000_000_000;
const MILLISECOND: u64 = 1_000_000;

fn limiter() -> RateLimiter {
    RateLimiter::new(_KeyExtactor::new())
}

fn count_allowed(limiter: &mut RateLimiter, key: &str, now: u64, requests: usize) -> usize {
    let mut allowed = 0;
    for _ in 0..requests {
        if limiter.check_and_consume(key, now) {
            allowed += 1;
        }
    }
    allowed
}

#[test]
fn constants_fit_together() {
    assert_eq!(BURST_CAPACITY, 10);
    assert_eq!(REFILL_PER_SECOND, 5);
    assert_eq!(FULL, BURST_CAPACITY * TOKEN);
    assert_eq!(NANOS_TO_FULL * REFILL_PER_SECOND, FULL);
    assert_eq!(TOKEN, SECOND);
    assert_eq!(KEY_HEADER, "Authorization");
}

#[test]
fn ten_pass_the_eleventh_does_not_and_a_second_brings_five() {
    let mut limiter = limiter();
    let start = 7 * SECOND;
    for request in 0..10 {
        assert!(limiter.check_and_consume("client", start), "request {}", request);
    }
    assert!(!limiter.check_and_consume("client", start));
    let later = start + SECOND;
    for request in 0..5 {
        assert!(limiter.check_and_consume("client", later), "request {}", request);
    }
    assert!(!limiter.check_and_consume("client", later));
}

#[test]
fn refill_stops_at_the_capacity() {
    let mut limiter = limiter();
    assert_eq!(count_allowed(&mut limiter, "client", 0, 20), 10);
    assert_eq!(count_allowed(&mut limiter, "client", 3600 * SECOND, 20), 10);
}

#[test]
fn exhausting_one_key_leaves_another_alone() {
    let mut limiter = limiter();
    assert_eq!(count_allowed(&mut limiter, "a", 0, 50), 10);
    assert!(!limiter.check_and_consume("a", 0));
    assert_eq!(count_allowed(&mut limiter, "b", 0, 50), 10);
}

#[test]
fn keys_interleaved_each_have_their_own_ten() {
    let mut limiter = limiter();
    let mut a = 0;
    let mut b = 0;
    for _ in 0..30 {
        if limiter.check_and_consume("a", 5) {
            a += 1;
        }
        if limiter.check_and_consume("b", 5) {
            b += 1;
        }
    }
    assert_eq!((a, b), (10, 10));
}

#[test]
fn keys_differ_by_any_character() {
    let mut limiter = limiter();
    assert_eq!(count_allowed(&mut limiter, "Bearer abc", 0, 11), 10);
    assert!(limiter.check_and_consume("Bearer abd", 0));
    assert!(limiter.check_and_consume("bearer abc", 0));
    assert!(limiter.check_and_consume("", 0));
}

#[test]
fn fresh_bucket_is_full() {
    let bucket = RateBucket::new("k".to_string(), 123);
    assert_eq!(bucket.available(123), FULL);
    assert_eq!(bucket.available(0), FULL);
    assert_eq!(bucket.available(u64::MAX), FULL);
}

#[test]
fn a_request_takes_exactly_one_token() {
    let mut bucket = RateBucket::new("k".to_string(), 0);
    assert!(bucket.check_and_consume(0));
    assert_eq!(bucket.available(0), 9 * TOKEN);
}

#[test]
fn refill_is_five_tokens_a_second() {
    let mut bucket = RateBucket::new("k".to_string(), 0);
    for _ in 0..10 {
        assert!(bucket.check_and_consume(0));
    }
    assert_eq!(bucket.available(0), 0);
    assert_eq!(bucket.available(1), 5);
    assert_eq!(bucket.available(100 * MILLISECOND), TOKEN / 2);
    assert_eq!(bucket.available(200 * MILLISECOND), TOKEN);
    assert_eq!(bucket.available(SECOND), 5 * TOKEN);
    assert_eq!(bucket.available(2 * SECOND - 1), FULL - 5);
    assert_eq!(bucket.available(2 * SECOND), FULL);
    assert_eq!(bucket.available(2 * SECOND + 1), FULL);
    assert_eq!(bucket.available(u64::MAX), FULL);
}

#[test]
fn a_token_is_there_after_a_fifth_of_a_second() {
    let mut bucket = RateBucket::new("k".to_string(), 0);
    for _ in 0..10 {
        assert!(bucket.check_and_consume(0));
    }
    assert!(!bucket.check_and_consume(200 * MILLISECOND - 1));
    assert!(bucket.check_and_consume(200 * MILLISECOND));
    assert!(!bucket.check_and_consume(200 * MILLISECOND));
}

#[test]
fn a_request_turned_away_changes_nothing() {
    let mut bucket = RateBucket::new("k".to_string(), 0);
    for _ in 0..10 {
        assert!(bucket.check_and_consume(0));
    }
    let mut untouched = RateBucket::new("k".to_string(), 0);
    for _ in 0..10 {
        assert!(untouched.check_and_consume(0));
    }
    assert!(!bucket.check_and_consume(150 * MILLISECOND));
    assert!(!bucket.check_and_consume(199 * MILLISECOND));
    assert_eq!(bucket, untouched);
    assert_eq!(bucket.available(200 * MILLISECOND), TOKEN);
}

#[test]
fn part_tokens_are_kept_across_requests() {
    let mut bucket = RateBucket::new("k".to_string(), 0);
    for _ in 0..10 {
        assert!(bucket.check_and_consume(0));
    }
    assert!(bucket.check_and_consume(300 * MILLISECOND));
    assert_eq!(bucket.available(300 * MILLISECOND), TOKEN / 2);
    assert!(bucket.check_and_consume(400 * MILLISECOND));
    assert_eq!(bucket.available(400 * MILLISECOND), 0);
}

#[test]
fn a_clock_that_steps_back_adds_nothing() {
    let mut bucket = RateBucket::new("k".to_string(), 10 * SECOND);
    for _ in 0..10 {
        assert!(bucket.check_and_consume(10 * SECOND));
    }
    assert_eq!(bucket.available(9 * SECOND), 0);
    assert!(!bucket.check_and_consume(0));
    assert_eq!(bucket.available(10 * SECOND + 200 * MILLISECOND), TOKEN);
}

#[test]
fn a_request_stamped_early_does_not_turn_the_clock_back() {
    let mut bucket = RateBucket::new("k".to_string(), 10 * SECOND);
    assert!(bucket.check_and_consume(0));
    assert_eq!(bucket.available(10 * SECOND), 9 * TOKEN);
    assert_eq!(bucket.available(10 * SECOND + 100 * MILLISECOND), 9 * TOKEN + TOKEN / 2);
}

#[test]
fn no_more_pass_in_a_window_than_capacity_and_refill_pay_for() {
    let mut limiter = limiter();
    let step = 10 * MILLISECOND;
    let mut allowed: u64 = 0;
    let mut now = 0;
    while now <= 3 * SECOND {
        for _ in 0..3 {
            if limiter.check_and_consume("client", now) {
                allowed += 1;
            }
        }
        assert!(allowed * TOKEN <= FULL + now * REFILL_PER_SECOND);
        now += step;
    }
    assert_eq!(allowed, 25);
}

#[test]
fn requests_out_of_order_pass_no_more_often() {
    let mut limiter = limiter();
    let times = [900u64, 100, 500, 1000, 0, 300, 1000, 700, 200, 1000, 0, 999, 1, 1000, 500];
    let mut allowed: u64 = 0;
    for round in 0..4 {
        for millis in times {
            if limiter.check_and_consume("client", millis * MILLISECOND) {
                allowed += 1;
            }
        }
        assert!(allowed * TOKEN <= FULL + SECOND * REFILL_PER_SECOND, "round {}", round);
    }
    // The bucket is first seen at 900 ms, full; up to 1000 ms it gains half a token.
    assert_eq!(allowed, 10);
}

#[test]
fn extractor_takes_the_header_as_the_key() {
    let extractor = _KeyExtactor::new();
    assert_eq!(extractor.extract(Some("Bearer abc")), Ok("Bearer abc".to_string()));
    assert_eq!(extractor.extract(Some("")), Ok(String::new()));
}

#[test]
fn extractor_fails_without_the_header() {
    assert_eq!(_KeyExtactor::new().extract(None), Err(GatewayError::MissingRateLimitKey));
}

#[test]
fn screen_tells_a_missing_key_from_an_empty_bucket() {
    let mut limiter = limiter();
    assert_eq!(limiter.screen(None, 0), Err(GatewayError::MissingRateLimitKey));
    for _ in 0..10 {
        assert_eq!(limiter.screen(Some("k"), 0), Ok(()));
    }
    assert_eq!(limiter.screen(Some("k"), 0), Err(GatewayError::RateLimited));
    assert_eq!(limiter.screen(None, 0), Err(GatewayError::MissingRateLimitKey));
    assert_eq!(limiter.screen(Some("k"), SECOND), Ok(()));
}

#[test]
fn a_request_without_key_touches_no_bucket() {
    let mut limiter = limiter();
    let mut untouched = RateLimiter::new(_KeyExtactor::new());
    assert!(limiter.check_and_consume("k", 0));
    assert!(untouched.check_and_consume("k", 0));
    for _ in 0..100 {
        assert!(limiter.screen(None, SECOND).is_err());
    }
    assert_eq!(limiter, untouched);
}
