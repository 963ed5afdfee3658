use inframint::clock;
use inframint::rate_limit::RateLimiter;

#[test]
fn limiter_admits_up_to_the_limit_inside_one_window() {
    let mut limiter = RateLimiter::new(1, 2);
    assert!(limiter.check_at("rate-limit-test", 100));
    assert!(limiter.check_at("rate-limit-test", 100));
    assert!(!limiter.check_at("rate-limit-test", 100));
    assert_eq!(limiter.recorded("rate-limit-test"), vec![100, 100]);
}

#[test]
fn limiter_reopens_when_the_oldest_timestamp_leaves_the_window() {
    let mut limiter = RateLimiter::new(60, 2);
    assert!(limiter.check_at("k", 1000));
    assert!(limiter.check_at("k", 1010));
    assert!(!limiter.check_at("k", 1020));
    assert!(!limiter.check_at("k", 1059));
    // a timestamp that is exactly one window old still counts
    assert!(!limiter.check_at("k", 1060));
    assert_eq!(limiter.recorded("k"), vec![1000, 1010]);
    // 1000 < 1061 - 60: the oldest timestamp is outside the window now
    assert!(limiter.check_at("k", 1061));
    assert_eq!(limiter.recorded("k"), vec![1010, 1061]);
    assert!(!limiter.check_at("k", 1070));
    assert!(limiter.check_at("k", 1071));
    assert_eq!(limiter.recorded("k"), vec![1061, 1071]);
}

#[test]
fn limiter_counts_a_timestamp_that_is_exactly_one_window_old() {
    let mut limiter = RateLimiter::new(1, 1);
    assert!(limiter.check_at("k", 100));
    assert!(!limiter.check_at("k", 100));
    assert!(!limiter.check_at("k", 101));
    assert_eq!(limiter.recorded("k"), vec![100]);
    assert!(limiter.check_at("k", 102));
    assert_eq!(limiter.recorded("k"), vec![102]);
}

#[test]
fn limiter_turns_the_third_of_three_requests_away_across_a_second_boundary() {
    let mut limiter = RateLimiter::new(1, 2);
    assert!(limiter.check_at("k", 100));
    assert!(limiter.check_at("k", 100));
    assert!(!limiter.check_at("k", 101));
    let mut limiter = RateLimiter::new(1, 2);
    assert!(limiter.check_at("k", 100));
    assert!(limiter.check_at("k", 101));
    assert!(!limiter.check_at("k", 101));
    assert!(limiter.check_at("k", 102));
    assert!(!limiter.check_at("k", 102));
}

#[test]
fn limiter_records_nothing_for_a_request_it_turns_away() {
    let mut limiter = RateLimiter::new(10, 1);
    assert!(limiter.check_at("k", 5));
    assert!(!limiter.check_at("k", 6));
    assert!(!limiter.check_at("k", 7));
    assert_eq!(limiter.recorded("k"), vec![5]);
}

#[test]
fn limiter_keeps_keys_apart() {
    let mut limiter = RateLimiter::new(10, 1);
    assert!(limiter.check_at("a", 5));
    assert!(limiter.check_at("b", 5));
    assert!(!limiter.check_at("a", 5));
    assert!(!limiter.check_at("b", 5));
    assert_eq!(limiter.recorded("a"), vec![5]);
    assert_eq!(limiter.recorded("b"), vec![5]);
    assert_eq!(limiter.recorded("c"), Vec::<u64>::new());
}

#[test]
fn limiter_reset_clears_one_key_only() {
    let mut limiter = RateLimiter::new(10, 1);
    assert!(limiter.check_at("a", 5));
    assert!(limiter.check_at("b", 5));
    limiter.reset("a");
    assert_eq!(limiter.recorded("a"), Vec::<u64>::new());
    assert_eq!(limiter.recorded("b"), vec![5]);
    assert!(limiter.check_at("a", 5));
    assert!(!limiter.check_at("b", 5));
    limiter.reset("never-seen");
}

#[test]
fn limiter_with_a_limit_of_nought_admits_nothing() {
    let mut limiter = RateLimiter::new(10, 0);
    assert!(!limiter.check_at("k", 5));
    assert!(!limiter.check_at("k", 500));
    assert_eq!(limiter.recorded("k"), Vec::<u64>::new());
}

#[test]
fn limiter_window_longer_than_the_clock_has_run_keeps_everything() {
    let mut limiter = RateLimiter::new(1000, 3);
    assert!(limiter.check_at("k", 1));
    assert!(limiter.check_at("k", 2));
    assert!(limiter.check_at("k", 3));
    assert!(!limiter.check_at("k", 4));
    assert_eq!(limiter.recorded("k"), vec![1, 2, 3]);
}

#[test]
fn limiter_with_a_window_of_nought_counts_the_same_second_only() {
    let mut limiter = RateLimiter::new(0, 1);
    assert!(limiter.check_at("k", 7));
    assert!(!limiter.check_at("k", 7));
    assert_eq!(limiter.recorded("k"), vec![7]);
    assert!(limiter.check_at("k", 8));
    assert_eq!(limiter.recorded("k"), vec![8]);
}

#[test]
fn limiter_reports_its_settings() {
    let limiter = RateLimiter::new(60, 1000);
    assert_eq!(limiter.window_size(), 60);
    assert_eq!(limiter.max_requests(), 1000);
}

#[test]
fn limiter_check_uses_the_clock() {
    let mut limiter = RateLimiter::new(3600, 2);
    let before = clock::now();
    assert!(limiter.check("k"));
    assert!(limiter.check("k"));
    assert!(!limiter.check("k"));
    let after = clock::now();
    let recorded = limiter.recorded("k");
    assert_eq!(recorded.len(), 2);
    assert!(before <= recorded[0] && recorded[0] <= recorded[1] && recorded[1] <= after);
}

#[test]
fn clock_reads_a_time_after_2020() {
    assert!(clock::now() > 1_577_836_800);
    assert!(clock::now() < 1 << 40);
}

#[test]
fn clock_wraps_times_before_the_epoch_to_the_far_future() {
    assert_eq!(clock::seconds_since_epoch(0), 0);
    assert_eq!(clock::seconds_since_epoch(1_700_000_000), 1_700_000_000);
    assert_eq!(clock::seconds_since_epoch(i64::MAX), i64::MAX as u64);
    assert_eq!(clock::seconds_since_epoch(-1), u64::MAX);
    assert_eq!(clock::seconds_since_epoch(-2), u64::MAX - 1);
    assert_eq!(clock::seconds_since_epoch(i64::MIN), 1u64 << 63);
    assert_eq!(clock::seconds_since_epoch(-5), (-5i64) as u64);
}
