//! A code-execution gateway library: a protocol-independent domain model of
//! executions, bearer-credential authentication, lossless translation between
//! the two wire surfaces (REST and RPC) and the backend execution protocol,
//! and a status-aware execution cache that never serves stale non-terminal
//! state.

pub mod auth;
pub mod cache;
pub mod client;
pub mod error;
pub mod execution;
pub mod grpc;
pub mod ids;
pub mod language;
pub mod rest;
pub mod state;
pub mod time;
pub mod wire;

pub use execution::ExecutionStatus;
