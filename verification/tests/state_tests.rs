use std::cell::Cell;
use std::rc::Rc;

use syla_gateway::client::{ExecutionClient, ExecutionTransport};
use syla_gateway::error::{ApiError, RpcCode, RpcStatus};
use syla_gateway::execution::{CreateExecutionRequest, ExecutionStatus};
use syla_gateway::state::AppState;
use syla_gateway::wire::{
    GetExecutionRequest, GetExecutionResponse, SubmitExecutionRequest, SubmitExecutionResponse,
    WireExecutionRecord, WireExecutionResult, WireTimestamp,
};

const ID_X: &str = "11111111-2222-4333-8444-555566667777";

struct FakeBackend {
    submit_calls: Rc<Cell<usize>>,
    get_calls: Rc<Cell<usize>>,
    reply_id: String,
    reply_status: i32,
    reply_exit_code: Option<i32>,
    get_not_found: bool,
}

impl FakeBackend {
    fn new(status: i32) -> (Self, Rc<Cell<usize>>, Rc<Cell<usize>>) {
        let submit_calls = Rc::new(Cell::new(0));
        let get_calls = Rc::new(Cell::new(0));
        let fake = FakeBackend {
            submit_calls: submit_calls.clone(),
            get_calls: get_calls.clone(),
            reply_id: ID_X.to_string(),
            reply_status: status,
            reply_exit_code: None,
            get_not_found: false,
        };
        (fake, submit_calls, get_calls)
    }
}

impl ExecutionTransport for FakeBackend {
    fn submit_execution(
        &mut self,
        _req: SubmitExecutionRequest,
    ) -> Result<SubmitExecutionResponse, RpcStatus> {
        self.submit_calls.set(self.submit_calls.get() + 1);
        Ok(SubmitExecutionResponse {
            execution_id: self.reply_id.clone(),
            status: self.reply_status,
            result: None,
        })
    }

    fn get_execution(
        &mut self,
        _req: GetExecutionRequest,
    ) -> Result<GetExecutionResponse, RpcStatus> {
        self.get_calls.set(self.get_calls.get() + 1);
        if self.get_not_found {
            return Err(RpcStatus {
                code: RpcCode::NotFound,
                message: "no such execution".to_string(),
            });
        }
        Ok(GetExecutionResponse {
            execution: Some(WireExecutionRecord {
                id: self.reply_id.clone(),
                status: self.reply_status,
                created_at: Some(WireTimestamp { seconds: 1_700_000_000, nanos: 0 }),
                started_at: None,
                completed_at: None,
                result: self.reply_exit_code.map(|c| WireExecutionResult {
                    exit_code: c,
                    stdout: "1\n".to_string(),
                    stderr: String::new(),
                }),
            }),
        })
    }
}

fn python_request() -> CreateExecutionRequest {
    CreateExecutionRequest {
        code: "print(1)".to_string(),
        language: "python".to_string(),
        timeout_seconds: None,
        args: None,
        workspace_id: None,
    }
}

fn id_x_value() -> u128 {
    uuid::Uuid::parse_str(ID_X).unwrap().as_u128()
}

#[test]
fn test_create_pending_execution() {
    let (fake, submit_calls, _) = FakeBackend::new(1);
    let mut state = AppState::new(ExecutionClient::new(fake));
    let response = state.create_execution(python_request()).unwrap();
    assert_eq!(response.status, ExecutionStatus::Pending);
    assert!(response.result.is_none());
    assert_eq!(response.id, id_x_value());
    assert_eq!(submit_calls.get(), 1);
}

#[test]
fn test_terminal_cached_one_backend_call() {
    let (mut fake, _, get_calls) = FakeBackend::new(5);
    fake.reply_exit_code = Some(0);
    let mut state = AppState::new(ExecutionClient::new(fake));
    let first = state.get_execution(id_x_value()).unwrap();
    assert_eq!(first.status, ExecutionStatus::Completed);
    assert_eq!(first.result.as_ref().unwrap().exit_code, 0);
    let second = state.get_execution(id_x_value()).unwrap();
    assert_eq!(second.status, ExecutionStatus::Completed);
    assert_eq!(get_calls.get(), 1);
}

#[test]
fn test_running_two_backend_calls() {
    let (fake, _, get_calls) = FakeBackend::new(4);
    let mut state = AppState::new(ExecutionClient::new(fake));
    let first = state.get_execution(id_x_value()).unwrap();
    assert_eq!(first.status, ExecutionStatus::Running);
    let second = state.get_execution(id_x_value()).unwrap();
    assert_eq!(second.status, ExecutionStatus::Running);
    assert_eq!(get_calls.get(), 2);
}

#[test]
fn test_create_then_terminal_get_served_from_cache() {
    let (fake, _, get_calls) = FakeBackend::new(5);
    let mut state = AppState::new(ExecutionClient::new(fake));
    let created = state.create_execution(python_request()).unwrap();
    assert_eq!(created.status, ExecutionStatus::Completed);
    let fetched = state.get_execution(created.id).unwrap();
    assert_eq!(fetched.status, ExecutionStatus::Completed);
    assert_eq!(get_calls.get(), 0);
}

#[test]
fn test_status_matches_get() {
    let (fake, _, _) = FakeBackend::new(4);
    let mut state = AppState::new(ExecutionClient::new(fake));
    let status = state.get_execution_status(id_x_value()).unwrap();
    let full = state.get_execution(id_x_value()).unwrap();
    assert_eq!(status, full.status);
}

#[test]
fn test_not_found_propagates() {
    let (mut fake, _, _) = FakeBackend::new(5);
    fake.get_not_found = true;
    let mut state = AppState::new(ExecutionClient::new(fake));
    let err = state.get_execution(id_x_value()).unwrap_err();
    assert_eq!(err, ApiError::NotFound);
    assert_eq!(err.http_status(), 404);
}

#[test]
fn test_status_collapse_from_backend_codes() {
    for (code, status) in [
        (1, ExecutionStatus::Pending),
        (2, ExecutionStatus::Pending),
        (3, ExecutionStatus::Pending),
        (4, ExecutionStatus::Running),
        (5, ExecutionStatus::Completed),
        (6, ExecutionStatus::Failed),
        (7, ExecutionStatus::Failed),
        (8, ExecutionStatus::Timeout),
        (0, ExecutionStatus::Pending),
        (99, ExecutionStatus::Pending),
    ] {
        let (fake, _, _) = FakeBackend::new(code);
        let mut state = AppState::new(ExecutionClient::new(fake));
        let got = state.get_execution(id_x_value()).unwrap();
        assert_eq!(got.status, status);
    }
}
