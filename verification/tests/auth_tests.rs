use syla_gateway::auth::{AuthError, AuthInterceptor};

fn interceptor(skip: bool) -> AuthInterceptor {
    AuthInterceptor::new("http://localhost:8085".to_string(), skip)
}

#[test]
fn test_skip_auth_dev_identity() {
    let ctx = interceptor(true).authenticate(None).unwrap();
    assert_eq!(ctx.user_id, "dev-user");
    assert_eq!(ctx.tenant_id.as_deref(), Some("dev-tenant"));
    assert_eq!(ctx.token, "dev-token");
}

#[test]
fn test_missing_header() {
    let r = interceptor(false).authenticate(None);
    assert_eq!(r.err(), Some(AuthError::MissingHeader));
}

#[test]
fn test_invalid_format() {
    let i = interceptor(false);
    assert_eq!(i.authenticate(Some("Basic abc")).err(), Some(AuthError::InvalidFormat));
    assert_eq!(i.authenticate(Some("bearer abc")).err(), Some(AuthError::InvalidFormat));
    assert_eq!(i.authenticate(Some("")).err(), Some(AuthError::InvalidFormat));
}

#[test]
fn test_invalid_token_rejected() {
    let r = interceptor(false).authenticate(Some("Bearer invalid"));
    assert_eq!(r.err(), Some(AuthError::InvalidToken));
}

#[test]
fn test_valid_token_placeholder_identity() {
    let ctx = interceptor(false).authenticate(Some("Bearer s3cr3t")).unwrap();
    assert_eq!(ctx.user_id, "placeholder-user");
    assert_eq!(ctx.tenant_id.as_deref(), Some("placeholder-tenant"));
    assert_eq!(ctx.token, "s3cr3t");
}

#[test]
fn test_auth_error_messages() {
    assert_eq!(AuthError::MissingHeader.message(), "Missing authorization header");
    assert_eq!(AuthError::InvalidHeader.message(), "Invalid authorization header");
    assert_eq!(AuthError::InvalidFormat.message(), "Invalid authorization format");
    assert_eq!(AuthError::InvalidToken.message(), "Invalid token");
}

#[test]
fn test_auth_service_pairs_service_with_interceptor() {
    let service = syla_gateway::auth::AuthService::new("inner-service", interceptor(false));
    assert_eq!(service.inner, "inner-service");
    assert!(!service.interceptor.skip_auth);
    assert_eq!(service.interceptor.auth_service_url, "http://localhost:8085");
}
