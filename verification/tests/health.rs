use link_with_mentor::health::{HealthStatus, check_health, check_readiness};

#[test]
fn test_health_status_json() {
    let status = HealthStatus {
        status: "healthy".to_string(),
        database: true,
        firebase: true,
        uptime_seconds: 3600,
    };

    let json = status.to_json();
    assert!(json.contains("healthy"));
    assert!(json.contains("3600"));
}

#[test]
fn health_follows_the_database_probe() {
    let healthy = check_health(true, true, 0, 90_000);
    assert_eq!(healthy.status, "healthy");
    assert!(healthy.database);
    assert!(healthy.firebase);
    assert_eq!(healthy.uptime_seconds, 90);

    // The gateway flag is reported but does not degrade the status.
    let gateway_off = check_health(true, false, 0, 1000);
    assert_eq!(gateway_off.status, "healthy");
    assert!(!gateway_off.firebase);

    let unhealthy = check_health(false, true, 0, 1000);
    assert_eq!(unhealthy.status, "unhealthy");
    assert!(!unhealthy.database);
}

#[test]
fn readiness_follows_the_database_probe() {
    assert!(check_readiness(true));
    assert!(!check_readiness(false));
}
