//! The wire shapes of the backend execution protocol, as plain values: what
//! the gateway sends to submit or fetch an execution and what the backend
//! answers.

use vstd::prelude::*;

verus! {

/// The wire mode code for sandboxed execution; the gateway submits every
/// execution in this mode.
pub const EXECUTION_MODE_SANDBOX: i32 = 1;

/// A span of time on the wire: seconds and subsecond nanoseconds.
#[derive(Clone, Copy, PartialEq, Eq, Structural, Debug)]
pub struct WireDuration {
    pub seconds: i64,
    pub nanos: i32,
}

/// A point in time on the wire: seconds since the UNIX epoch and subsecond
/// nanoseconds.
#[derive(Clone, Copy, PartialEq, Eq, Structural, Debug)]
pub struct WireTimestamp {
    pub seconds: i64,
    pub nanos: i32,
}

/// Who asks for an execution and on whose behalf: the submitting user, the
/// owning workspace if any, and a fresh correlation identifier per request.
#[derive(Debug)]
pub struct ExecutionContext {
    pub user_id: String,
    pub workspace_id: String,
    pub request_id: String,
    pub session_id: String,
    pub metadata: Vec<(String, String)>,
}

/// The execution itself as the backend wants it: the code, the language as a
/// wire enum code, the arguments, and the optional timeout.
#[derive(Debug)]
pub struct WireExecutionRequest {
    pub code: String,
    pub language: i32,
    pub args: Vec<String>,
    pub environment: Vec<(String, String)>,
    pub timeout: Option<WireDuration>,
    pub mode: i32,
    pub metadata: Vec<(String, String)>,
}

/// A request to submit an execution; the gateway always submits
/// asynchronously.
#[derive(Debug)]
pub struct SubmitExecutionRequest {
    pub context: Option<ExecutionContext>,
    pub request: Option<WireExecutionRequest>,
    pub run_async: bool,
}

/// The outcome fields of an execution as the backend reports them.
#[derive(Debug)]
pub struct WireExecutionResult {
    pub exit_code: i32,
    pub stdout: String,
    pub stderr: String,
}

/// The backend's answer to a submission: the identifier it assigned, the
/// status the execution starts in, and a result where one already exists.
#[derive(Debug)]
pub struct SubmitExecutionResponse {
    pub execution_id: String,
    pub status: i32,
    pub result: Option<WireExecutionResult>,
}

/// A request to fetch one execution by its identifier.
#[derive(Debug)]
pub struct GetExecutionRequest {
    pub execution_id: String,
    pub include_output: bool,
    pub include_metrics: bool,
}

/// One execution as the backend reports it.
#[derive(Debug)]
pub struct WireExecutionRecord {
    pub id: String,
    pub status: i32,
    pub created_at: Option<WireTimestamp>,
    pub started_at: Option<WireTimestamp>,
    pub completed_at: Option<WireTimestamp>,
    pub result: Option<WireExecutionResult>,
}

/// The backend's answer to a fetch.
#[derive(Debug)]
pub struct GetExecutionResponse {
    pub execution: Option<WireExecutionRecord>,
}

} // verus!
