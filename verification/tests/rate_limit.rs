use link_with_mentor::rate_limit::RateLimiter;

#[test]
fn test_rate_limiter() {
    let mut limiter = RateLimiter::new(3, 1000);

    assert!(limiter.check_rate_limit("user1", 0));
    assert!(limiter.check_rate_limit("user1", 0));
    assert!(limiter.check_rate_limit("user1", 0));
    assert!(!limiter.check_rate_limit("user1", 0)); // Should be blocked

    assert_eq!(limiter.remaining("user1", 0), 0);
}

#[test]
fn test_different_users() {
    let mut limiter = RateLimiter::new(2, 1000);

    assert!(limiter.check_rate_limit("user1", 0));
    assert!(limiter.check_rate_limit("user2", 0));
    assert!(limiter.check_rate_limit("user1", 0));
    assert!(limiter.check_rate_limit("user2", 0));

    // Both should be at limit
    assert!(!limiter.check_rate_limit("user1", 0));
    assert!(!limiter.check_rate_limit("user2", 0));
}

#[test]
fn admission_resumes_after_window() {
    let mut limiter = RateLimiter::new(2, 1000);

    assert!(limiter.check_rate_limit("user1", 0));
    assert!(limiter.check_rate_limit("user1", 500));
    assert!(!limiter.check_rate_limit("user1", 999));

    // One full window after the latest recorded request, admission resumes.
    assert!(limiter.check_rate_limit("user1", 1500));
}

#[test]
fn remaining_counts_only_valid_timestamps() {
    let mut limiter = RateLimiter::new(5, 1000);

    assert_eq!(limiter.remaining("user1", 0), 5);
    assert!(limiter.check_rate_limit("user1", 0));
    assert!(limiter.check_rate_limit("user1", 100));
    assert_eq!(limiter.remaining("user1", 100), 3);

    // The first timestamp has aged out at time 1050; the second has not.
    assert_eq!(limiter.remaining("user1", 1050), 4);
}

#[test]
fn cleanup_drops_idle_identities() {
    let mut limiter = RateLimiter::new(2, 1000);

    assert!(limiter.check_rate_limit("user1", 0));
    assert!(limiter.check_rate_limit("user2", 800));
    limiter.cleanup(1500);

    // user1's only timestamp is stale; user2's is still within the window.
    assert_eq!(limiter.entries.len(), 1);
    assert_eq!(limiter.entries[0].key, "user2");
    assert_eq!(limiter.remaining("user1", 1500), 2);
    assert_eq!(limiter.remaining("user2", 1500), 1);
}
