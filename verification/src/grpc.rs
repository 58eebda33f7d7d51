//! The RPC front end: the gateway's RPC wire messages and the service that
//! decodes them, authenticates the caller, drives the state coordinator, and
//! encodes the answer back. Unimplemented operations answer with an explicit
//! unimplemented status, never silently.

use vstd::prelude::*;

use crate::auth::spec_auth_failure;
use crate::auth::spec_auth_user;
use crate::auth::AuthInterceptor;
use crate::client::ExecutionTransport;
use crate::error::ApiError;
use crate::error::RpcCode;
use crate::error::RpcStatus;
use crate::execution::CreateExecutionRequest;
use crate::execution::ExecutionResponse;
use crate::execution::ExecutionStatus;
use crate::ids::format_uuid;
use crate::ids::parse_uuid;
use crate::ids::uuid_hyphenated;
use crate::ids::uuid_parse_of;
use crate::language::canonical_name;
use crate::language::language_of_code;
use crate::language::spec_canonical_name;
use crate::language::spec_language_of_code;
use crate::language::Language;
use crate::state::AppState;
use crate::time::now_timestamp;
use crate::time::Timestamp;
use crate::wire::WireDuration;
use crate::wire::WireTimestamp;

verus! {

/// A request on the RPC surface to create an execution; the language arrives
/// as a wire enum code and the workspace as a UUID string, empty for none.
#[derive(Debug)]
pub struct RpcCreateExecutionRequest {
    pub code: String,
    pub language: i32,
    pub args: Vec<String>,
    pub timeout: Option<WireDuration>,
    pub workspace_id: String,
    pub metadata: Vec<(String, String)>,
}

/// An execution result on the RPC surface.
#[derive(Debug)]
pub struct RpcExecutionResult {
    pub exit_code: i32,
    pub stdout: String,
    pub stderr: String,
    pub execution_time: Option<WireDuration>,
}

/// One execution as the RPC surface reports it.
#[derive(Debug)]
pub struct RpcExecution {
    pub id: String,
    pub user_id: String,
    pub workspace_id: String,
    pub status: i32,
    pub language: i32,
    pub code: String,
    pub args: Vec<String>,
    pub result: Option<RpcExecutionResult>,
    pub created_at: Option<WireTimestamp>,
    pub started_at: Option<WireTimestamp>,
    pub completed_at: Option<WireTimestamp>,
    pub metadata: Vec<(String, String)>,
}

/// The answer to a create request.
#[derive(Debug)]
pub struct RpcCreateExecutionResponse {
    pub execution: Option<RpcExecution>,
}

/// A request to fetch one execution by its UUID string.
#[derive(Debug)]
pub struct RpcGetExecutionRequest {
    pub id: String,
}

/// The answer to a fetch request.
#[derive(Debug)]
pub struct RpcGetExecutionResponse {
    pub execution: Option<RpcExecution>,
}

/// The reported health of one component.
#[derive(Debug)]
pub struct ComponentHealth {
    pub healthy: bool,
    pub message: String,
}

/// The answer to a health check: an overall status code, the component
/// breakdown, and when the check ran.
#[derive(Debug)]
pub struct RpcHealthCheckResponse {
    pub status: i32,
    pub components: Vec<(String, ComponentHealth)>,
    pub timestamp: Option<WireTimestamp>,
}

/// The wire code for an overall healthy service.
pub const HEALTH_STATUS_HEALTHY: i32 = 1;

/// The RPC wire code of each unified execution status.
pub open spec fn spec_rpc_status_code(s: ExecutionStatus) -> i32 {
    match s {
        ExecutionStatus::Pending => 1,
        ExecutionStatus::Running => 2,
        ExecutionStatus::Completed => 3,
        ExecutionStatus::Failed => 4,
        ExecutionStatus::Timeout => 5,
    }
}

/// The RPC wire code of a unified execution status.
pub fn rpc_status_code(s: ExecutionStatus) -> (r: i32)
    ensures
        r == spec_rpc_status_code(s),
{
    match s {
        ExecutionStatus::Pending => 1,
        ExecutionStatus::Running => 2,
        ExecutionStatus::Completed => 3,
        ExecutionStatus::Failed => 4,
        ExecutionStatus::Timeout => 5,
    }
}

/// The language name the RPC create operation accepts for a wire code, or
/// `None` where it rejects the code: an unknown code, the unspecified code
/// and the shell code are all rejected.
pub open spec fn spec_rpc_language_name(code: i32) -> Option<Seq<char>> {
    match spec_language_of_code(code) {
        Some(l) => if l == Language::Unspecified || l == Language::Shell {
            None
        } else {
            Some(spec_canonical_name(l))
        },
        None => None,
    }
}

fn rpc_language_name(code: i32) -> (r: Option<String>)
    ensures
        match r {
            Some(s) => spec_rpc_language_name(code) == Some(s@),
            None => spec_rpc_language_name(code) is None,
        },
{
    match language_of_code(code) {
        Some(l) => match l {
            Language::Unspecified => None,
            Language::Shell => None,
            _ => Some(canonical_name(l)),
        },
        None => None,
    }
}

/// A timestamp on the RPC wire: the nanosecond field reread as signed, which
/// a well-formed timestamp always permits.
pub open spec fn spec_wire_of_timestamp(t: Timestamp) -> WireTimestamp {
    WireTimestamp { seconds: t.seconds, nanos: t.nanos as i32 }
}

fn wire_of_timestamp(t: Timestamp) -> (r: WireTimestamp)
    requires
        t.wf(),
    ensures
        r == spec_wire_of_timestamp(t),
{
    WireTimestamp { seconds: t.seconds, nanos: t.nanos as i32 }
}

/// A millisecond count as a wire duration: whole seconds and the remainder in
/// nanoseconds.
pub open spec fn spec_wire_of_duration_ms(ms: u64) -> WireDuration {
    WireDuration { seconds: (ms / 1000) as i64, nanos: ((ms % 1000) * 1_000_000) as i32 }
}

fn wire_of_duration_ms(ms: u64) -> (r: WireDuration)
    ensures
        r == spec_wire_of_duration_ms(ms),
{
    WireDuration { seconds: (ms / 1000) as i64, nanos: ((ms % 1000) * 1_000_000) as i32 }
}

/// How an RPC execution message renders a domain record: the identifier in
/// its hyphenated form, the status as its RPC code, no workspace, the result
/// with its duration split into a wire duration, and every present timestamp
/// carried over.
pub open spec fn spec_rpc_execution_matches(ex: RpcExecution, e: ExecutionResponse) -> bool {
    &&& ex.id@ == uuid_hyphenated(e.id)
    &&& ex.workspace_id@ == Seq::<char>::empty()
    &&& ex.status == spec_rpc_status_code(e.status)
    &&& (match e.result {
        None => ex.result is None,
        Some(res) => ex.result matches Some(w) && w.exit_code == res.exit_code && w.stdout
            == res.stdout && w.stderr == res.stderr && w.execution_time == Some(
            spec_wire_of_duration_ms(res.duration_ms),
        ),
    })
    &&& ex.created_at == Some(spec_wire_of_timestamp(e.created_at))
    &&& ex.started_at == (match e.started_at {
        Some(t) => Some(spec_wire_of_timestamp(t)),
        None => None::<WireTimestamp>,
    })
    &&& ex.completed_at == (match e.completed_at {
        Some(t) => Some(spec_wire_of_timestamp(t)),
        None => None::<WireTimestamp>,
    })
}

fn rpc_execution_of(
    e: ExecutionResponse,
    user_id: String,
    language: i32,
    code: String,
    args: Vec<String>,
    metadata: Vec<(String, String)>,
) -> (r: RpcExecution)
    requires
        e.wf(),
    ensures
        spec_rpc_execution_matches(r, e),
        r.user_id == user_id,
        r.language == language,
        r.code == code,
        r.args == args,
        r.metadata == metadata,
{
    RpcExecution {
        id: format_uuid(e.id),
        user_id,
        workspace_id: String::new(),
        status: rpc_status_code(e.status),
        language,
        code,
        args,
        result: match e.result {
            Some(res) => Some(
                RpcExecutionResult {
                    exit_code: res.exit_code,
                    stdout: res.stdout,
                    stderr: res.stderr,
                    execution_time: Some(wire_of_duration_ms(res.duration_ms)),
                },
            ),
            None => None,
        },
        created_at: Some(wire_of_timestamp(e.created_at)),
        started_at: match e.started_at {
            Some(t) => Some(wire_of_timestamp(t)),
            None => None,
        },
        completed_at: match e.completed_at {
            Some(t) => Some(wire_of_timestamp(t)),
            None => None,
        },
        metadata,
    }
}

fn clone_string_vec(v: &Vec<String>) -> (r: Vec<String>)
    ensures
        r@ == v@,
{
    let mut r: Vec<String> = Vec::new();
    let mut i: usize = 0;
    while i < v.len()
        invariant
            i <= v@.len(),
            r@ == v@.subrange(0, i as int),
        decreases v@.len() - i,
    {
        r.push(v[i].clone());
        proof {
            assert(r@ =~= v@.subrange(0, i as int + 1));
        }
        i = i + 1;
    }
    proof {
        assert(v@.subrange(0, v@.len() as int) =~= v@);
    }
    r
}

/// The RPC service: the shared state coordinator behind the shared
/// authentication interceptor.
pub struct SylaGatewayService<T: ExecutionTransport> {
    state: AppState<T>,
    auth_interceptor: AuthInterceptor,
}

impl<T: ExecutionTransport> SylaGatewayService<T> {
    /// The state coordinator behind this service.
    pub closed spec fn app_state(&self) -> AppState<T> {
        self.state
    }

    /// The interceptor guarding this service.
    pub closed spec fn interceptor(&self) -> AuthInterceptor {
        self.auth_interceptor
    }

    /// The service is well-formed when its coordinator is.
    pub open spec fn wf(&self) -> bool {
        self.app_state().wf()
    }

    /// A service over the given coordinator and interceptor.
    pub fn new(state: AppState<T>, auth_interceptor: AuthInterceptor) -> (r: Self)
        ensures
            r.app_state() == state,
            r.interceptor() == auth_interceptor,
    {
        SylaGatewayService { state, auth_interceptor }
    }

    /// Create an execution over the RPC surface: authenticate, decode the
    /// language code (rejecting one the create operation does not accept),
    /// drive the coordinator, and echo the request fields back around the new
    /// record. An authentication or decode failure changes nothing; a backend
    /// failure surfaces as one internal status and leaves the cache as it
    /// was.
    pub fn create_execution(
        &mut self,
        req: RpcCreateExecutionRequest,
        auth_header: Option<&str>,
    ) -> (r: Result<RpcCreateExecutionResponse, RpcStatus>)
        requires
            old(self).wf(),
        ensures
            final(self).wf(),
            final(self).interceptor() == old(self).interceptor(),
            match spec_auth_failure(old(self).interceptor().skip_auth, auth_header) {
                Some(ae) => r matches Err(st) && st.code == RpcCode::Unauthenticated && st.message@
                    == ae.spec_message() && *final(self) == *old(self),
                None => match spec_rpc_language_name(req.language) {
                    None => r matches Err(st) && st.code == RpcCode::InvalidArgument && st.message@
                        == "Invalid language"@ && *final(self) == *old(self),
                    Some(_) => match r {
                        Err(st) => st.code == RpcCode::Internal && st.message@
                            == "Failed to create execution"@ && final(self).app_state().cache()
                            == old(self).app_state().cache(),
                        Ok(resp) => resp.execution matches Some(ex) && ex.user_id@
                            == spec_auth_user(old(self).interceptor().skip_auth) && ex.language
                            == req.language && ex.code@ == req.code@ && ex.args@ == req.args@
                            && ex.metadata@ == req.metadata@ && exists|e: ExecutionResponse|
                            #![trigger old(self).app_state().cache().insert(e.id, e)]
                            e.wf() && spec_rpc_execution_matches(ex, e)
                                && final(self).app_state().cache() == old(self).app_state().cache().insert(e.id, e),
                    },
                },
            },
    {
        let auth_context = match self.auth_interceptor.authenticate(auth_header) {
            Ok(c) => c,
            Err(ae) => {
                return Err(RpcStatus { code: RpcCode::Unauthenticated, message: ae.message() });
            },
        };
        let language = match rpc_language_name(req.language) {
            Some(name) => name,
            None => {
                return Err(
                    RpcStatus {
                        code: RpcCode::InvalidArgument,
                        message: String::from_str("Invalid language"),
                    },
                );
            },
        };
        let workspace_id = if req.workspace_id.as_str().is_empty() {
            None
        } else {
            parse_uuid(req.workspace_id.as_str())
        };
        let execution_req = CreateExecutionRequest {
            code: req.code.clone(),
            language,
            timeout_seconds: match req.timeout {
                Some(t) => Some(t.seconds as u64),
                None => None,
            },
            args: Some(clone_string_vec(&req.args)),
            workspace_id,
        };
        match self.state.create_execution(execution_req) {
            Ok(exec_response) => {
                let ex = rpc_execution_of(
                    exec_response,
                    auth_context.user_id,
                    req.language,
                    req.code,
                    req.args,
                    req.metadata,
                );
                Ok(RpcCreateExecutionResponse { execution: Some(ex) })
            },
            Err(_e) => Err(
                RpcStatus {
                    code: RpcCode::Internal,
                    message: String::from_str("Failed to create execution"),
                },
            ),
        }
    }

    /// Fetch an execution over the RPC surface: authenticate, parse the
    /// identifier, and serve the coordinator's answer. A record served from
    /// the terminal cache changes nothing at all; an unknown execution
    /// surfaces as the not-found status and every other backend failure as
    /// one internal status.
    pub fn get_execution(
        &mut self,
        req: RpcGetExecutionRequest,
        auth_header: Option<&str>,
    ) -> (r: Result<RpcGetExecutionResponse, RpcStatus>)
        requires
            old(self).wf(),
        ensures
            final(self).wf(),
            final(self).interceptor() == old(self).interceptor(),
            match spec_auth_failure(old(self).interceptor().skip_auth, auth_header) {
                Some(ae) => r matches Err(st) && st.code == RpcCode::Unauthenticated && st.message@
                    == ae.spec_message() && *final(self) == *old(self),
                None => match uuid_parse_of(req.id@) {
                    None => r matches Err(st) && st.code == RpcCode::InvalidArgument && st.message@
                        == "Invalid execution ID"@ && *final(self) == *old(self),
                    Some(id) => if old(self).app_state().cache().contains_key(id) && old(self).app_state().cache()[id].status.spec_is_terminal() {
                        r matches Ok(resp) && resp.execution matches Some(ex)
                            && spec_rpc_execution_matches(ex, old(self).app_state().cache()[id])
                            && ex.user_id@ == spec_auth_user(old(self).interceptor().skip_auth)
                            && *final(self) == *old(self)
                    } else {
                        match r {
                            Ok(resp) => resp.execution matches Some(ex) && ex.user_id@
                                == spec_auth_user(old(self).interceptor().skip_auth) && exists|
                                e: ExecutionResponse,
                            |
                                #![trigger old(self).app_state().cache().insert(e.id, e)]
                                e.wf() && spec_rpc_execution_matches(ex, e)
                                    && final(self).app_state().cache() == old(self).app_state().cache().insert(e.id, e),
                            Err(st) => ((st.code == RpcCode::NotFound && st.message@
                                == "Execution not found"@) || (st.code == RpcCode::Internal
                                && st.message@ == "Failed to get execution"@)) && final(self).app_state().cache() == old(self).app_state().cache(),
                        }
                    },
                },
            },
    {
        let auth_context = match self.auth_interceptor.authenticate(auth_header) {
            Ok(c) => c,
            Err(ae) => {
                return Err(RpcStatus { code: RpcCode::Unauthenticated, message: ae.message() });
            },
        };
        let execution_id = match parse_uuid(req.id.as_str()) {
            Some(id) => id,
            None => {
                return Err(
                    RpcStatus {
                        code: RpcCode::InvalidArgument,
                        message: String::from_str("Invalid execution ID"),
                    },
                );
            },
        };
        match self.state.get_execution(execution_id) {
            Ok(exec_response) => {
                let ex = rpc_execution_of(
                    exec_response,
                    auth_context.user_id,
                    0,
                    String::new(),
                    Vec::new(),
                    Vec::new(),
                );
                Ok(RpcGetExecutionResponse { execution: Some(ex) })
            },
            Err(e) => match e {
                ApiError::NotFound => Err(
                    RpcStatus {
                        code: RpcCode::NotFound,
                        message: String::from_str("Execution not found"),
                    },
                ),
                _ => Err(
                    RpcStatus {
                        code: RpcCode::Internal,
                        message: String::from_str("Failed to get execution"),
                    },
                ),
            },
        }
    }

    /// Listing executions is not offered yet.
    pub fn list_executions(&self) -> (r: RpcStatus)
        ensures
            r.code == RpcCode::Unimplemented,
            r.message@ == "List executions not yet implemented"@,
    {
        RpcStatus {
            code: RpcCode::Unimplemented,
            message: String::from_str("List executions not yet implemented"),
        }
    }

    /// Cancelling an execution is not offered yet.
    pub fn cancel_execution(&self) -> (r: RpcStatus)
        ensures
            r.code == RpcCode::Unimplemented,
            r.message@ == "Cancel execution not yet implemented"@,
    {
        RpcStatus {
            code: RpcCode::Unimplemented,
            message: String::from_str("Cancel execution not yet implemented"),
        }
    }

    /// Streaming an execution is not offered yet.
    pub fn stream_execution(&self) -> (r: RpcStatus)
        ensures
            r.code == RpcCode::Unimplemented,
            r.message@ == "Stream execution not yet implemented"@,
    {
        RpcStatus {
            code: RpcCode::Unimplemented,
            message: String::from_str("Stream execution not yet implemented"),
        }
    }

    /// Creating a workspace is not offered yet.
    pub fn create_workspace(&self) -> (r: RpcStatus)
        ensures
            r.code == RpcCode::Unimplemented,
            r.message@ == "Create workspace not yet implemented"@,
    {
        RpcStatus {
            code: RpcCode::Unimplemented,
            message: String::from_str("Create workspace not yet implemented"),
        }
    }

    /// Fetching a workspace is not offered yet.
    pub fn get_workspace(&self) -> (r: RpcStatus)
        ensures
            r.code == RpcCode::Unimplemented,
            r.message@ == "Get workspace not yet implemented"@,
    {
        RpcStatus {
            code: RpcCode::Unimplemented,
            message: String::from_str("Get workspace not yet implemented"),
        }
    }

    /// Listing workspaces is not offered yet.
    pub fn list_workspaces(&self) -> (r: RpcStatus)
        ensures
            r.code == RpcCode::Unimplemented,
            r.message@ == "List workspaces not yet implemented"@,
    {
        RpcStatus {
            code: RpcCode::Unimplemented,
            message: String::from_str("List workspaces not yet implemented"),
        }
    }

    /// Updating a workspace is not offered yet.
    pub fn update_workspace(&self) -> (r: RpcStatus)
        ensures
            r.code == RpcCode::Unimplemented,
            r.message@ == "Update workspace not yet implemented"@,
    {
        RpcStatus {
            code: RpcCode::Unimplemented,
            message: String::from_str("Update workspace not yet implemented"),
        }
    }

    /// Deleting a workspace is not offered yet.
    pub fn delete_workspace(&self) -> (r: RpcStatus)
        ensures
            r.code == RpcCode::Unimplemented,
            r.message@ == "Delete workspace not yet implemented"@,
    {
        RpcStatus {
            code: RpcCode::Unimplemented,
            message: String::from_str("Delete workspace not yet implemented"),
        }
    }

    /// Metrics are not offered yet.
    pub fn get_metrics(&self) -> (r: RpcStatus)
        ensures
            r.code == RpcCode::Unimplemented,
            r.message@ == "Get metrics not yet implemented"@,
    {
        RpcStatus {
            code: RpcCode::Unimplemented,
            message: String::from_str("Get metrics not yet implemented"),
        }
    }

    /// The health of the gateway: always healthy overall, with the execution
    /// service reported as one running component, stamped with the current
    /// time at whole-second precision.
    pub fn health_check(&self) -> (r: RpcHealthCheckResponse)
        ensures
            r.status == HEALTH_STATUS_HEALTHY,
            r.components@.len() == 1,
            r.components@[0].0@ == "execution_service"@,
            r.components@[0].1.healthy == true,
            r.components@[0].1.message@ == "Service is running"@,
            r.timestamp matches Some(t) && t.nanos == 0,
    {
        let mut components: Vec<(String, ComponentHealth)> = Vec::new();
        components.push(
            (
                String::from_str("execution_service"),
                ComponentHealth { healthy: true, message: String::from_str("Service is running") },
            ),
        );
        let now = now_timestamp();
        RpcHealthCheckResponse {
            status: HEALTH_STATUS_HEALTHY,
            components,
            timestamp: Some(WireTimestamp { seconds: now.seconds, nanos: 0 }),
        }
    }
}

} // verus!
