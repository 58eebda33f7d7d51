//! The state coordinator: the single source of truth for what the gateway
//! currently believes about each execution. Terminal records are immutable at
//! the backend, so they are served from the cache; non-terminal records are
//! never trusted and always re-fetched.

use vstd::prelude::*;

use crate::cache::ExecutionCache;
use crate::client::ExecutionClient;
use crate::client::ExecutionTransport;
use crate::error::ApiError;
use crate::execution::CreateExecutionRequest;
use crate::execution::ExecutionResponse;
use crate::execution::ExecutionStatus;
use crate::ids::format_uuid;

verus! {

/// The shared application state both protocol front ends work against: one
/// backend client and one execution cache.
pub struct AppState<T: ExecutionTransport> {
    execution_client: ExecutionClient<T>,
    executions: ExecutionCache,
}

impl<T: ExecutionTransport> AppState<T> {
    /// The mapping the cache currently holds.
    pub closed spec fn cache(&self) -> Map<u128, ExecutionResponse> {
        self.executions@
    }

    /// The cache binds each identifier at most once and holds only
    /// well-formed records.
    pub closed spec fn wf(&self) -> bool {
        &&& self.executions.wf()
        &&& forall|k: u128| #[trigger]
            self.executions@.contains_key(k) ==> self.executions@[k].wf()
    }

    /// Fresh state over a backend client, with an empty cache.
    pub fn new(execution_client: ExecutionClient<T>) -> (r: Self)
        ensures
            r.wf(),
            r.cache() == Map::<u128, ExecutionResponse>::empty(),
    {
        AppState { execution_client, executions: ExecutionCache::new() }
    }

    /// Create an execution: always call the backend, then unconditionally
    /// bind the new record in the cache under its identifier. Every failure
    /// on this path is internal, and a failed call leaves the cache as it
    /// was.
    pub fn create_execution(&mut self, request: CreateExecutionRequest) -> (r: Result<
        ExecutionResponse,
        ApiError,
    >)
        requires
            old(self).wf(),
        ensures
            final(self).wf(),
            r matches Ok(ex) ==> ex.wf() && final(self).cache() == old(self).cache().insert(
                ex.id,
                ex,
            ),
            r matches Err(e) ==> e is Internal && final(self).cache() == old(self).cache(),
    {
        let user_id = String::from_str("test-user");
        let workspace_id = match &request.workspace_id {
            Some(id) => Some(format_uuid(*id)),
            None => None,
        };
        match self.execution_client.create_execution(user_id, workspace_id, request) {
            Ok(execution) => {
                self.executions.insert(execution.id, execution.clone());
                Ok(execution)
            },
            Err(e) => Err(e),
        }
    }

    /// Resolve an execution. A cached terminal record is served as it is,
    /// with no backend call and no state change at all; in every other case
    /// the backend is asked, the fresh record overwrites the cache entry
    /// under its identifier, and the fresh record is returned. Errors come
    /// unchanged from the backend client and leave the cache as it was.
    pub fn get_execution(&mut self, id: u128) -> (r: Result<ExecutionResponse, ApiError>)
        requires
            old(self).wf(),
        ensures
            final(self).wf(),
            r matches Ok(ex) ==> ex.wf(),
            (old(self).cache().contains_key(id) && old(self).cache()[id].status.spec_is_terminal())
                ==> (r == Ok::<ExecutionResponse, ApiError>(old(self).cache()[id]) && *final(self)
                == *old(self)),
            !(old(self).cache().contains_key(id)
                && old(self).cache()[id].status.spec_is_terminal()) ==> (match r {
                Ok(ex) => ex.wf() && final(self).cache() == old(self).cache().insert(ex.id, ex),
                Err(e) => (e is NotFound || e is Internal) && final(self).cache() == old(self).cache(),
            }),
    {
        match self.executions.get(id) {
            Some(execution) => {
                if execution.status.is_terminal() {
                    return Ok(execution.clone());
                }
            },
            None => {},
        }
        let execution = match self.execution_client.get_execution(id) {
            Ok(e) => e,
            Err(e) => {
                return Err(e);
            },
        };
        self.executions.insert(execution.id, execution.clone());
        Ok(execution)
    }

    /// The status of an execution: exactly `get_execution` projected onto its
    /// status field, with no code path of its own, so status and full record
    /// can never be observed inconsistently.
    pub fn get_execution_status(&mut self, id: u128) -> (r: Result<ExecutionStatus, ApiError>)
        requires
            old(self).wf(),
        ensures
            final(self).wf(),
            (old(self).cache().contains_key(id) && old(self).cache()[id].status.spec_is_terminal())
                ==> (r == Ok::<ExecutionStatus, ApiError>(old(self).cache()[id].status)
                && *final(self) == *old(self)),
            !(old(self).cache().contains_key(id)
                && old(self).cache()[id].status.spec_is_terminal()) ==> (match r {
                Ok(s) => exists|ex: ExecutionResponse|
                    #![trigger old(self).cache().insert(ex.id, ex)]
                    ex.wf() && s == ex.status && final(self).cache() == old(self).cache().insert(
                        ex.id,
                        ex,
                    ),
                Err(e) => (e is NotFound || e is Internal) && final(self).cache() == old(self).cache(),
            }),
    {
        match self.get_execution(id) {
            Ok(e) => Ok(e.status),
            Err(e) => Err(e),
        }
    }
}

} // verus!
