//! The protocol-independent domain model of an execution: its status state
//! machine, its result, and the request and response records that both wire
//! surfaces translate into and out of.

use vstd::prelude::*;

use crate::ids::new_v4_u128;
use crate::time::now_timestamp;
use crate::time::Timestamp;

verus! {

/// A request to run a piece of code, as both wire surfaces hand it to the
/// gateway: the source text, the target language by name, and the optional
/// timeout, positional arguments and owning workspace.
#[derive(Debug)]
pub struct CreateExecutionRequest {
    pub code: String,
    pub language: String,
    pub timeout_seconds: Option<u64>,
    pub args: Option<Vec<String>>,
    pub workspace_id: Option<u128>,
}

/// The outcome of a finished execution: the process exit code, the captured
/// output streams, and how long the run took.
#[derive(Debug)]
pub struct ExecutionResult {
    pub exit_code: i32,
    pub stdout: String,
    pub stderr: String,
    pub duration_ms: u64,
}

impl Clone for ExecutionResult {
    /// Cloning an execution result keeps every field.
    fn clone(&self) -> (r: Self)
        ensures
            r == *self,
    {
        ExecutionResult {
            exit_code: self.exit_code,
            stdout: self.stdout.clone(),
            stderr: self.stderr.clone(),
            duration_ms: self.duration_ms,
        }
    }
}

/// The gateway's protocol-independent record of one execution: its identifier,
/// where it stands in the status state machine, its timestamps, and its result
/// once one exists.
#[derive(Debug)]
pub struct ExecutionResponse {
    pub id: u128,
    pub status: ExecutionStatus,
    pub created_at: Timestamp,
    pub started_at: Option<Timestamp>,
    pub completed_at: Option<Timestamp>,
    pub result: Option<ExecutionResult>,
}

impl ExecutionResponse {
    /// Every timestamp of a well-formed record fits the wire formats.
    pub open spec fn wf(&self) -> bool {
        &&& self.created_at.wf()
        &&& (self.started_at matches Some(t) ==> t.wf())
        &&& (self.completed_at matches Some(t) ==> t.wf())
    }

    /// A fresh `Pending` record with a new version-4 identifier, created now,
    /// not yet started and with no result.
    pub fn new_pending() -> (r: Self)
        ensures
            r.status == ExecutionStatus::Pending,
            r.started_at is None,
            r.completed_at is None,
            r.result is None,
            r.wf(),
            (r.id >> 76) & 0xf == 4,
            (r.id >> 62) & 0x3 == 2,
    {
        ExecutionResponse {
            id: new_v4_u128(),
            status: ExecutionStatus::Pending,
            created_at: now_timestamp(),
            started_at: None,
            completed_at: None,
            result: None,
        }
    }
}

impl Clone for ExecutionResponse {
    /// Cloning an execution record keeps every field.
    fn clone(&self) -> (r: Self)
        ensures
            r == *self,
    {
        ExecutionResponse {
            id: self.id,
            status: self.status,
            created_at: self.created_at,
            started_at: self.started_at,
            completed_at: self.completed_at,
            result: match &self.result {
                Some(res) => Some(res.clone()),
                None => None,
            },
        }
    }
}

/// The unified execution status state machine:
/// `Pending -> Running -> {Completed | Failed | Timeout}`.
/// `Pending` and `Running` are non-terminal; the other three are terminal.
#[derive(Clone, Copy, PartialEq, Eq, Structural, Debug)]
pub enum ExecutionStatus {
    Pending,
    Running,
    Completed,
    Failed,
    Timeout,
}

impl ExecutionStatus {
    /// A terminal status is one after which no further transition occurs,
    /// so a cached record with a terminal status can never go stale.
    pub open spec fn spec_is_terminal(&self) -> bool {
        match self {
            ExecutionStatus::Pending => false,
            ExecutionStatus::Running => false,
            ExecutionStatus::Completed => true,
            ExecutionStatus::Failed => true,
            ExecutionStatus::Timeout => true,
        }
    }

    /// Whether this status is terminal (`Completed`, `Failed` or `Timeout`).
    #[verifier::when_used_as_spec(spec_is_terminal)]
    pub fn is_terminal(&self) -> (r: bool)
        ensures
            r == self.spec_is_terminal(),
    {
        match self {
            ExecutionStatus::Completed => true,
            ExecutionStatus::Failed => true,
            ExecutionStatus::Timeout => true,
            _ => false,
        }
    }
}

} // verus!
