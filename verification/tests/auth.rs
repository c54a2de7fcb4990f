use link_with_mentor::auth::{check_role, extract_token, validate_auth_header};
use link_with_mentor::service::ServiceError;

#[test]
fn test_check_role() {
    assert!(check_role("admin", "user").is_ok());
    assert!(check_role("user", "user").is_ok());
    assert!(check_role("user", "admin").is_err());
}

#[test]
fn role_failure_is_permission_denied() {
    assert!(matches!(check_role("user", "admin"), Err(ServiceError::PermissionDenied)));
}

#[test]
fn extract_token_strips_the_bearer_prefix() {
    let token = extract_token(Some("Bearer abc.def")).unwrap();
    assert_eq!(token, "abc.def");
}

#[test]
fn extract_token_rejects_missing_or_malformed_headers() {
    assert!(matches!(extract_token(None), Err(ServiceError::Unauthenticated)));
    assert!(matches!(extract_token(Some("Basic abc")), Err(ServiceError::Unauthenticated)));
    assert!(matches!(extract_token(Some("Bearer")), Err(ServiceError::Unauthenticated)));
}

#[test]
fn interceptor_screens_the_header_shape() {
    assert!(validate_auth_header(Some("Bearer t")).is_ok());
    assert!(matches!(validate_auth_header(None), Err(ServiceError::Unauthenticated)));
    assert!(matches!(validate_auth_header(Some("token")), Err(ServiceError::Unauthenticated)));
}
