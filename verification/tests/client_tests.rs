use syla_gateway::client::{build_submit_request, parse_get_response, parse_submit_response, status_of_wire, timestamp_of_wire};
use syla_gateway::error::ApiError;
use syla_gateway::execution::{CreateExecutionRequest, ExecutionStatus};
use syla_gateway::time::Timestamp;
use syla_gateway::wire::{
    GetExecutionResponse, SubmitExecutionResponse, WireDuration, WireExecutionRecord,
    WireExecutionResult, WireTimestamp, EXECUTION_MODE_SANDBOX,
};

const ID: &str = "0f14d0ab-9605-4a62-a9e4-5ed26688389b";

fn now() -> Timestamp {
    Timestamp { seconds: 1_700_000_000, nanos: 0 }
}

#[test]
fn test_build_submit_request_maps_fields() {
    let request = CreateExecutionRequest {
        code: "print(1)".to_string(),
        language: "Python".to_string(),
        timeout_seconds: Some(30),
        args: Some(vec!["x".to_string()]),
        workspace_id: None,
    };
    let wire = build_submit_request(
        "user-1".to_string(),
        Some("ws-1".to_string()),
        request,
        "req-1".to_string(),
    );
    assert!(wire.run_async);
    let ctx = wire.context.unwrap();
    assert_eq!(ctx.user_id, "user-1");
    assert_eq!(ctx.workspace_id, "ws-1");
    assert_eq!(ctx.request_id, "req-1");
    assert_eq!(ctx.session_id, "");
    assert!(ctx.metadata.is_empty());
    let req = wire.request.unwrap();
    assert_eq!(req.code, "print(1)");
    assert_eq!(req.language, 1);
    assert_eq!(req.args, vec!["x".to_string()]);
    assert!(req.environment.is_empty());
    assert_eq!(req.timeout, Some(WireDuration { seconds: 30, nanos: 0 }));
    assert_eq!(req.mode, EXECUTION_MODE_SANDBOX);
}

#[test]
fn test_build_submit_request_defaults() {
    let request = CreateExecutionRequest {
        code: String::new(),
        language: "klingon".to_string(),
        timeout_seconds: None,
        args: None,
        workspace_id: None,
    };
    let wire = build_submit_request("user-1".to_string(), None, request, "req-2".to_string());
    let ctx = wire.context.unwrap();
    assert_eq!(ctx.workspace_id, "");
    let req = wire.request.unwrap();
    // An unrecognized language goes out as the unspecified code, which the
    // backend rejects.
    assert_eq!(req.language, 0);
    assert!(req.args.is_empty());
    assert_eq!(req.timeout, None);
}

#[test]
fn test_parse_submit_response() {
    let resp = SubmitExecutionResponse {
        execution_id: ID.to_string(),
        status: 2,
        result: None,
    };
    let ex = parse_submit_response(resp, now()).unwrap();
    assert_eq!(ex.id, uuid::Uuid::parse_str(ID).unwrap().as_u128());
    // The queued sub-state collapses onto pending.
    assert_eq!(ex.status, ExecutionStatus::Pending);
    assert_eq!(ex.created_at, now());
    assert!(ex.started_at.is_none());
    assert!(ex.result.is_none());
}

#[test]
fn test_parse_submit_response_bad_id() {
    let resp = SubmitExecutionResponse {
        execution_id: "garbage".to_string(),
        status: 1,
        result: None,
    };
    let err = parse_submit_response(resp, now()).unwrap_err();
    assert!(matches!(err, ApiError::Internal(_)));
}

#[test]
fn test_parse_get_response_missing_payload() {
    let err = parse_get_response(GetExecutionResponse { execution: None }, now()).unwrap_err();
    assert_eq!(err, ApiError::Internal("Missing execution data".to_string()));
}

#[test]
fn test_parse_get_response_full_record() {
    let resp = GetExecutionResponse {
        execution: Some(WireExecutionRecord {
            id: ID.to_string(),
            status: 7,
            created_at: Some(WireTimestamp { seconds: 1_600_000_000, nanos: 5 }),
            started_at: Some(WireTimestamp { seconds: 1_600_000_001, nanos: 0 }),
            completed_at: None,
            result: Some(WireExecutionResult {
                exit_code: 137,
                stdout: "out".to_string(),
                stderr: "err".to_string(),
            }),
        }),
    };
    let ex = parse_get_response(resp, now()).unwrap();
    // A cancelled execution counts as failed.
    assert_eq!(ex.status, ExecutionStatus::Failed);
    assert_eq!(ex.created_at, Timestamp { seconds: 1_600_000_000, nanos: 5 });
    assert_eq!(ex.started_at, Some(Timestamp { seconds: 1_600_000_001, nanos: 0 }));
    assert_eq!(ex.completed_at, None);
    let result = ex.result.unwrap();
    assert_eq!(result.exit_code, 137);
    assert_eq!(result.stdout, "out");
    assert_eq!(result.stderr, "err");
    assert_eq!(result.duration_ms, 0);
}

#[test]
fn test_parse_get_response_unparsable_created_at_is_now() {
    let resp = GetExecutionResponse {
        execution: Some(WireExecutionRecord {
            id: ID.to_string(),
            status: 1,
            created_at: Some(WireTimestamp { seconds: 0, nanos: 2_000_000_000 }),
            started_at: None,
            completed_at: None,
            result: None,
        }),
    };
    let ex = parse_get_response(resp, now()).unwrap();
    assert_eq!(ex.created_at, now());
}

#[test]
fn test_status_of_wire_collapse() {
    assert_eq!(status_of_wire(1), ExecutionStatus::Pending);
    assert_eq!(status_of_wire(2), ExecutionStatus::Pending);
    assert_eq!(status_of_wire(3), ExecutionStatus::Pending);
    assert_eq!(status_of_wire(4), ExecutionStatus::Running);
    assert_eq!(status_of_wire(5), ExecutionStatus::Completed);
    assert_eq!(status_of_wire(6), ExecutionStatus::Failed);
    assert_eq!(status_of_wire(7), ExecutionStatus::Failed);
    assert_eq!(status_of_wire(8), ExecutionStatus::Timeout);
    assert_eq!(status_of_wire(0), ExecutionStatus::Pending);
    assert_eq!(status_of_wire(-5), ExecutionStatus::Pending);
}

#[test]
fn test_timestamp_of_wire() {
    assert_eq!(
        timestamp_of_wire(Some(WireTimestamp { seconds: 12, nanos: 34 })),
        Some(Timestamp { seconds: 12, nanos: 34 })
    );
    assert_eq!(timestamp_of_wire(None), None);
    assert_eq!(timestamp_of_wire(Some(WireTimestamp { seconds: 0, nanos: 2_000_000_000 })), None);
    // Far out of chrono's representable range.
    assert_eq!(timestamp_of_wire(Some(WireTimestamp { seconds: i64::MAX, nanos: 0 })), None);
}
