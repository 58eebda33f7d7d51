use syla_gateway::error::{ApiError, RpcCode};

#[test]
fn test_http_status_codes() {
    assert_eq!(ApiError::NotFound.http_status(), 404);
    assert_eq!(ApiError::BadRequest("x".to_string()).http_status(), 400);
    assert_eq!(ApiError::Internal("x".to_string()).http_status(), 500);
    assert_eq!(ApiError::ServiceUnavailable.http_status(), 503);
    assert_eq!(ApiError::RateLimited.http_status(), 429);
}

#[test]
fn test_error_kinds() {
    assert_eq!(ApiError::NotFound.error_kind(), "not_found");
    assert_eq!(ApiError::BadRequest("x".to_string()).error_kind(), "bad_request");
    assert_eq!(ApiError::Internal("x".to_string()).error_kind(), "internal_error");
    assert_eq!(ApiError::ServiceUnavailable.error_kind(), "service_unavailable");
    assert_eq!(ApiError::RateLimited.error_kind(), "rate_limited");
}

#[test]
fn test_error_messages() {
    assert_eq!(ApiError::NotFound.message(), "Not found");
    assert_eq!(
        ApiError::BadRequest("no such language".to_string()).message(),
        "Bad request: no such language"
    );
    // The internal message never leaks backend detail.
    assert_eq!(
        ApiError::Internal("connection refused at 10.0.0.1".to_string()).message(),
        "Internal server error"
    );
    assert_eq!(ApiError::ServiceUnavailable.message(), "Service unavailable");
    assert_eq!(ApiError::RateLimited.message(), "Too many requests");
}

#[test]
fn test_rpc_code_numbers() {
    assert_eq!(RpcCode::Unknown.number(), 2);
    assert_eq!(RpcCode::InvalidArgument.number(), 3);
    assert_eq!(RpcCode::NotFound.number(), 5);
    assert_eq!(RpcCode::Unimplemented.number(), 12);
    assert_eq!(RpcCode::Internal.number(), 13);
    assert_eq!(RpcCode::Unavailable.number(), 14);
    assert_eq!(RpcCode::Unauthenticated.number(), 16);
}
