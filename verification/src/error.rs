//! The gateway's error taxonomy and its stable mappings onto the two wire
//! surfaces: HTTP status codes with machine-readable kinds, and RPC status
//! codes.

use vstd::prelude::*;

verus! {

/// The errors the gateway's own operations surface to callers.
#[derive(Debug, PartialEq)]
pub enum ApiError {
    /// No execution with the requested identifier is known.
    NotFound,
    /// The request was malformed or named unsupported input.
    BadRequest(String),
    /// A transport failure, a malformed backend payload or a translation
    /// failure; the message never leaks backend-internal detail.
    Internal(String),
    /// Reserved for future backpressure; no current path triggers it.
    ServiceUnavailable,
    /// Reserved for future backpressure; no current path triggers it.
    RateLimited,
}

impl ApiError {
    /// The HTTP status code each error maps onto; the mapping is stable so
    /// REST clients can branch on it.
    pub open spec fn spec_http_status(&self) -> u16 {
        match self {
            ApiError::NotFound => 404,
            ApiError::BadRequest(_) => 400,
            ApiError::Internal(_) => 500,
            ApiError::ServiceUnavailable => 503,
            ApiError::RateLimited => 429,
        }
    }

    /// The HTTP status code of this error.
    #[verifier::when_used_as_spec(spec_http_status)]
    pub fn http_status(&self) -> (r: u16)
        ensures
            r == self.spec_http_status(),
    {
        match self {
            ApiError::NotFound => 404,
            ApiError::BadRequest(_) => 400,
            ApiError::Internal(_) => 500,
            ApiError::ServiceUnavailable => 503,
            ApiError::RateLimited => 429,
        }
    }

    /// The machine-readable error kind each error maps onto.
    pub open spec fn spec_error_kind(&self) -> Seq<char> {
        match self {
            ApiError::NotFound => "not_found"@,
            ApiError::BadRequest(_) => "bad_request"@,
            ApiError::Internal(_) => "internal_error"@,
            ApiError::ServiceUnavailable => "service_unavailable"@,
            ApiError::RateLimited => "rate_limited"@,
        }
    }

    /// The machine-readable error kind of this error.
    pub fn error_kind(&self) -> (r: String)
        ensures
            r@ == self.spec_error_kind(),
    {
        match self {
            ApiError::NotFound => String::from_str("not_found"),
            ApiError::BadRequest(_) => String::from_str("bad_request"),
            ApiError::Internal(_) => String::from_str("internal_error"),
            ApiError::ServiceUnavailable => String::from_str("service_unavailable"),
            ApiError::RateLimited => String::from_str("rate_limited"),
        }
    }

    /// The human-readable message of each error. A bad request carries its
    /// own detail; an internal error deliberately does not.
    pub open spec fn spec_message(&self) -> Seq<char> {
        match self {
            ApiError::NotFound => "Not found"@,
            ApiError::BadRequest(detail) => "Bad request: "@ + detail@,
            ApiError::Internal(_) => "Internal server error"@,
            ApiError::ServiceUnavailable => "Service unavailable"@,
            ApiError::RateLimited => "Too many requests"@,
        }
    }

    /// The human-readable message of this error.
    pub fn message(&self) -> (r: String)
        ensures
            r@ == self.spec_message(),
    {
        match self {
            ApiError::NotFound => String::from_str("Not found"),
            ApiError::BadRequest(detail) => String::from_str("Bad request: ").concat(
                detail.as_str(),
            ),
            ApiError::Internal(_) => String::from_str("Internal server error"),
            ApiError::ServiceUnavailable => String::from_str("Service unavailable"),
            ApiError::RateLimited => String::from_str("Too many requests"),
        }
    }
}

/// The RPC status codes the gateway sends and receives. The numbers on the
/// wire are the standard gRPC ones, given by `rpc_code_number`.
#[derive(Clone, Copy, PartialEq, Eq, Structural, Debug)]
pub enum RpcCode {
    InvalidArgument,
    NotFound,
    Internal,
    Unimplemented,
    Unauthenticated,
    Unavailable,
    Unknown,
}

impl RpcCode {
    /// The number each code has on the wire.
    pub open spec fn spec_number(&self) -> u32 {
        match self {
            RpcCode::Unknown => 2,
            RpcCode::InvalidArgument => 3,
            RpcCode::NotFound => 5,
            RpcCode::Unimplemented => 12,
            RpcCode::Internal => 13,
            RpcCode::Unavailable => 14,
            RpcCode::Unauthenticated => 16,
        }
    }

    /// The number this code has on the wire.
    #[verifier::when_used_as_spec(spec_number)]
    pub fn number(&self) -> (r: u32)
        ensures
            r == self.spec_number(),
    {
        match self {
            RpcCode::Unknown => 2,
            RpcCode::InvalidArgument => 3,
            RpcCode::NotFound => 5,
            RpcCode::Unimplemented => 12,
            RpcCode::Internal => 13,
            RpcCode::Unavailable => 14,
            RpcCode::Unauthenticated => 16,
        }
    }
}

/// An RPC status: a code and a human-readable message. It stands both for the
/// failures the gateway returns on its RPC surface and for the failures the
/// backend transport reports to the gateway.
#[derive(Debug, PartialEq)]
pub struct RpcStatus {
    pub code: RpcCode,
    pub message: String,
}

impl Clone for RpcStatus {
    /// Cloning a status keeps its code and message.
    fn clone(&self) -> (r: Self)
        ensures
            r == *self,
    {
        RpcStatus { code: self.code, message: self.message.clone() }
    }
}

} // verus!
