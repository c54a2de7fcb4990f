use link_with_mentor::metrics::{Metrics, MetricsSnapshot};

#[test]
fn test_metrics() {
    let mut metrics = Metrics::new();

    metrics.increment_requests();
    metrics.increment_successful();
    metrics.increment_users_created();

    let snapshot = metrics.get_snapshot();
    assert_eq!(snapshot.total_requests, 1);
    assert_eq!(snapshot.successful_requests, 1);
    assert_eq!(snapshot.total_users_created, 1);
    assert_eq!(snapshot.success_rate_hundredths(), 10000);
}

#[test]
fn test_success_rate() {
    let mut metrics = Metrics::new();

    metrics.increment_requests();
    metrics.increment_requests();
    metrics.increment_successful();

    let snapshot = metrics.get_snapshot();
    assert_eq!(snapshot.success_rate_hundredths(), 5000);
}

#[test]
fn success_rate_is_zero_without_requests() {
    let snapshot = Metrics::new().get_snapshot();
    assert_eq!(snapshot.total_requests, 0);
    assert_eq!(snapshot.success_rate_hundredths(), 0);
}

#[test]
fn success_rate_truncates_to_hundredths() {
    let snapshot = MetricsSnapshot {
        total_requests: 3,
        successful_requests: 1,
        failed_requests: 2,
        total_users_created: 0,
        total_sessions_created: 0,
        total_notifications_sent: 0,
    };
    // 1/3 of a hundred percent, in hundredths: 3333 (truncated).
    assert_eq!(snapshot.success_rate_hundredths(), 3333);
}

#[test]
fn metrics_json_renders_every_counter() {
    let snapshot = MetricsSnapshot {
        total_requests: 4,
        successful_requests: 3,
        failed_requests: 1,
        total_users_created: 2,
        total_sessions_created: 0,
        total_notifications_sent: 7,
    };
    let expected = "{\n  \"total_requests\": 4,\n  \"successful_requests\": 3,\n  \"failed_requests\": 1,\n  \"success_rate\": 75.00,\n  \"total_users_created\": 2,\n  \"total_sessions_created\": 0,\n  \"total_notifications_sent\": 7\n}";
    assert_eq!(snapshot.to_json(), expected);
}

#[test]
fn counters_are_independent() {
    let mut metrics = Metrics::new();
    metrics.increment_failed();
    metrics.increment_sessions_created();
    metrics.increment_notifications_sent();

    let snapshot = metrics.get_snapshot();
    assert_eq!(snapshot.total_requests, 0);
    assert_eq!(snapshot.successful_requests, 0);
    assert_eq!(snapshot.failed_requests, 1);
    assert_eq!(snapshot.total_sessions_created, 1);
    assert_eq!(snapshot.total_notifications_sent, 1);
}
