//! The backend client: translation between the domain model and the backend
//! wire protocol, around an interchangeable transport. Translation is
//! lossless and stateless; the transport is the only trusted part.

use vstd::prelude::*;

use crate::error::ApiError;
use crate::error::RpcCode;
use crate::error::RpcStatus;
use crate::execution::CreateExecutionRequest;
use crate::execution::ExecutionResponse;
use crate::execution::ExecutionResult;
use crate::execution::ExecutionStatus;
use crate::ids::format_uuid;
use crate::ids::new_v4_u128;
use crate::ids::parse_uuid;
use crate::ids::uuid_parse_of;
use crate::language::language_code;
use crate::language::parse_language;
use crate::language::spec_language_code;
use crate::language::spec_parse_language;
use crate::time::chrono_accepts;
use crate::time::checked_timestamp;
use crate::time::now_timestamp;
use crate::time::Timestamp;
use crate::wire::GetExecutionRequest;
use crate::wire::GetExecutionResponse;
use crate::wire::ExecutionContext;
use crate::wire::SubmitExecutionRequest;
use crate::wire::SubmitExecutionResponse;
use crate::wire::WireDuration;
use crate::wire::WireExecutionRequest;
use crate::wire::WireTimestamp;
use crate::wire::EXECUTION_MODE_SANDBOX;

verus! {

/// A transport that can carry the two backend operations. The gateway works
/// with any of them (a binary RPC client or a plain HTTP one); nothing is
/// assumed of what they answer.
pub trait ExecutionTransport {
    /// Submit an execution to the backend execution service.
    fn submit_execution(&mut self, req: SubmitExecutionRequest) -> Result<
        SubmitExecutionResponse,
        RpcStatus,
    >;

    /// Fetch one execution from the backend execution service.
    fn get_execution(&mut self, req: GetExecutionRequest) -> Result<
        GetExecutionResponse,
        RpcStatus,
    >;
}

/// The status the backend's wire code collapses onto: the queued and
/// preparing sub-states are `Pending`, a cancelled execution counts as
/// `Failed`, and an unknown code is treated as `Pending`.
pub open spec fn spec_status_of_wire(c: i32) -> ExecutionStatus {
    if c == 1 || c == 2 || c == 3 {
        ExecutionStatus::Pending
    } else if c == 4 {
        ExecutionStatus::Running
    } else if c == 5 {
        ExecutionStatus::Completed
    } else if c == 6 || c == 7 {
        ExecutionStatus::Failed
    } else if c == 8 {
        ExecutionStatus::Timeout
    } else {
        ExecutionStatus::Pending
    }
}

/// Collapse a backend status code onto the unified status set.
pub fn status_of_wire(c: i32) -> (r: ExecutionStatus)
    ensures
        r == spec_status_of_wire(c),
{
    if c == 1 || c == 2 || c == 3 {
        ExecutionStatus::Pending
    } else if c == 4 {
        ExecutionStatus::Running
    } else if c == 5 {
        ExecutionStatus::Completed
    } else if c == 6 || c == 7 {
        ExecutionStatus::Failed
    } else if c == 8 {
        ExecutionStatus::Timeout
    } else {
        ExecutionStatus::Pending
    }
}

/// The timestamp a wire timestamp denotes: `None` where the field is absent
/// or chrono cannot represent the pair. The wire nanosecond field is reread
/// as unsigned, as the backend protocol defines it.
pub open spec fn spec_timestamp_of_wire(t: Option<WireTimestamp>) -> Option<Timestamp> {
    match t {
        Some(w) => if chrono_accepts(w.seconds, w.nanos as u32) {
            Some(Timestamp { seconds: w.seconds, nanos: w.nanos as u32 })
        } else {
            None
        },
        None => None,
    }
}

/// Convert an optional wire timestamp, dropping what chrono cannot represent.
pub fn timestamp_of_wire(t: Option<WireTimestamp>) -> (r: Option<Timestamp>)
    ensures
        r == spec_timestamp_of_wire(t),
        r matches Some(x) ==> x.wf(),
{
    match t {
        Some(w) => checked_timestamp(w.seconds, w.nanos as u32),
        None => None,
    }
}

/// Build the backend submission for an execution request: map the language
/// name to its wire code, the timeout to a wire duration, and default the
/// unset maps to empty.
pub fn build_submit_request(
    user_id: String,
    workspace_id: Option<String>,
    request: CreateExecutionRequest,
    request_id: String,
) -> (r: SubmitExecutionRequest)
    ensures
        r.run_async == true,
        r.context matches Some(c) && c.user_id == user_id && c.request_id == request_id
            && c.session_id@.len() == 0 && c.metadata@.len() == 0 && c.workspace_id@ == (
        match workspace_id {
            Some(w) => w@,
            None => Seq::<char>::empty(),
        }),
        r.request matches Some(q) && q.code == request.code && q.language == spec_language_code(
            spec_parse_language(request.language@),
        ) && q.environment@.len() == 0 && q.metadata@.len() == 0 && q.mode
            == EXECUTION_MODE_SANDBOX && q.args@ == (match request.args {
            Some(a) => a@,
            None => Seq::<String>::empty(),
        }) && q.timeout == (match request.timeout_seconds {
            Some(s) => Some(WireDuration { seconds: s as i64, nanos: 0 }),
            None => None::<WireDuration>,
        }),
{
    let language = language_code(parse_language(request.language.as_str()));
    let timeout = match request.timeout_seconds {
        Some(s) => Some(WireDuration { seconds: s as i64, nanos: 0 }),
        None => None,
    };
    let args = match request.args {
        Some(a) => a,
        None => Vec::new(),
    };
    let workspace = match workspace_id {
        Some(w) => w,
        None => String::new(),
    };
    SubmitExecutionRequest {
        context: Some(
            ExecutionContext {
                user_id,
                workspace_id: workspace,
                request_id,
                session_id: String::new(),
                metadata: Vec::new(),
            },
        ),
        request: Some(
            WireExecutionRequest {
                code: request.code,
                language,
                args,
                environment: Vec::new(),
                timeout,
                mode: EXECUTION_MODE_SANDBOX,
                metadata: Vec::new(),
            },
        ),
        run_async: true,
    }
}

/// Read the backend's answer to a submission into an execution record. The
/// backend-assigned identifier must parse as a UUID; a malformed one is a
/// fatal translation error. The record is created now, not yet started, and
/// carries the result fields the backend already reported.
pub fn parse_submit_response(resp: SubmitExecutionResponse, now: Timestamp) -> (r: Result<
    ExecutionResponse,
    ApiError,
>)
    requires
        now.wf(),
    ensures
        match uuid_parse_of(resp.execution_id@) {
            None => r matches Err(e) && e is Internal,
            Some(id) => r matches Ok(ex) && ex.id == id && ex.status == spec_status_of_wire(
                resp.status,
            ) && ex.created_at == now && ex.started_at is None && ex.completed_at is None && (
            match resp.result {
                None => ex.result is None,
                Some(w) => ex.result matches Some(res) && res.exit_code == w.exit_code
                    && res.stdout == w.stdout && res.stderr == w.stderr && res.duration_ms == 0,
            }),
        },
        r matches Ok(ex) ==> ex.wf(),
{
    let id = match parse_uuid(resp.execution_id.as_str()) {
        Some(id) => id,
        None => {
            return Err(
                ApiError::Internal(String::from_str("Invalid execution identifier from backend")),
            );
        },
    };
    Ok(
        ExecutionResponse {
            id,
            status: status_of_wire(resp.status),
            created_at: now,
            started_at: None,
            completed_at: None,
            result: match resp.result {
                Some(w) => Some(
                    ExecutionResult {
                        exit_code: w.exit_code,
                        stdout: w.stdout,
                        stderr: w.stderr,
                        duration_ms: 0,
                    },
                ),
                None => None,
            },
        },
    )
}

/// Read the backend's answer to a fetch into an execution record. A missing
/// payload or a malformed identifier is a fatal translation error; an absent
/// or unrepresentable creation timestamp is taken as now, and the other
/// timestamps are dropped where unrepresentable.
pub fn parse_get_response(resp: GetExecutionResponse, now: Timestamp) -> (r: Result<
    ExecutionResponse,
    ApiError,
>)
    requires
        now.wf(),
    ensures
        match resp.execution {
            None => r matches Err(e) && e matches ApiError::Internal(m) && m@
                == "Missing execution data"@,
            Some(rec) => match uuid_parse_of(rec.id@) {
                None => r matches Err(e) && e is Internal,
                Some(id) => r matches Ok(ex) && ex.id == id && ex.status == spec_status_of_wire(
                    rec.status,
                ) && ex.created_at == (match spec_timestamp_of_wire(rec.created_at) {
                    Some(t) => t,
                    None => now,
                }) && ex.started_at == spec_timestamp_of_wire(rec.started_at) && ex.completed_at
                    == spec_timestamp_of_wire(rec.completed_at) && (match rec.result {
                    None => ex.result is None,
                    Some(w) => ex.result matches Some(res) && res.exit_code == w.exit_code
                        && res.stdout == w.stdout && res.stderr == w.stderr && res.duration_ms
                        == 0,
                }),
            },
        },
        r matches Ok(ex) ==> ex.wf(),
        r matches Err(e) ==> e is Internal,
{
    let rec = match resp.execution {
        Some(rec) => rec,
        None => {
            return Err(ApiError::Internal(String::from_str("Missing execution data")));
        },
    };
    let id = match parse_uuid(rec.id.as_str()) {
        Some(id) => id,
        None => {
            return Err(
                ApiError::Internal(String::from_str("Invalid execution identifier from backend")),
            );
        },
    };
    let created_at = match timestamp_of_wire(rec.created_at) {
        Some(t) => t,
        None => now,
    };
    Ok(
        ExecutionResponse {
            id,
            status: status_of_wire(rec.status),
            created_at,
            started_at: timestamp_of_wire(rec.started_at),
            completed_at: timestamp_of_wire(rec.completed_at),
            result: match rec.result {
                Some(w) => Some(
                    ExecutionResult {
                        exit_code: w.exit_code,
                        stdout: w.stdout,
                        stderr: w.stderr,
                        duration_ms: 0,
                    },
                ),
                None => None,
            },
        },
    )
}

/// The backend client: one transport, no state between calls. Each operation
/// translates outward, carries the call over the transport, and translates
/// the answer back.
pub struct ExecutionClient<T: ExecutionTransport> {
    pub transport: T,
}

impl<T: ExecutionTransport> ExecutionClient<T> {
    /// A client over the given transport.
    pub fn new(transport: T) -> (r: Self)
        ensures
            r.transport == transport,
    {
        ExecutionClient { transport }
    }

    /// Submit an execution: assign a fresh correlation identifier, translate
    /// the request outward, and read the answer back. Whatever the backend
    /// answers, a returned record is well-formed; every failure on this path
    /// is an internal error.
    pub fn create_execution(
        &mut self,
        user_id: String,
        workspace_id: Option<String>,
        request: CreateExecutionRequest,
    ) -> (r: Result<ExecutionResponse, ApiError>)
        ensures
            r matches Ok(ex) ==> ex.wf(),
            r matches Err(e) ==> e is Internal,
    {
        let request_id = format_uuid(new_v4_u128());
        let wire_req = build_submit_request(user_id, workspace_id, request, request_id);
        match self.transport.submit_execution(wire_req) {
            Err(status) => Err(ApiError::Internal(status.message)),
            Ok(resp) => {
                let now = now_timestamp();
                parse_submit_response(resp, now)
            },
        }
    }

    /// Fetch an execution. A backend not-found answer surfaces as `NotFound`,
    /// distinct from every other failure, which is internal; a returned
    /// record is well-formed.
    pub fn get_execution(&mut self, id: u128) -> (r: Result<ExecutionResponse, ApiError>)
        ensures
            r matches Ok(ex) ==> ex.wf(),
            r matches Err(e) ==> e is NotFound || e is Internal,
    {
        let wire_req = GetExecutionRequest {
            execution_id: format_uuid(id),
            include_output: true,
            include_metrics: false,
        };
        match self.transport.get_execution(wire_req) {
            Err(status) => {
                if status.code == RpcCode::NotFound {
                    Err(ApiError::NotFound)
                } else {
                    Err(ApiError::Internal(status.message))
                }
            },
            Ok(resp) => {
                let now = now_timestamp();
                parse_get_response(resp, now)
            },
        }
    }
}

} // verus!
