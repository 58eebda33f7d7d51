//! The REST front end's own payloads: the health answer. The REST handlers
//! themselves are thin adapters around the state coordinator; the error
//! mapping they use lives with the error taxonomy.

use vstd::prelude::*;

use crate::time::now_timestamp;
use crate::time::Timestamp;

verus! {

/// The body of the REST health answer: always healthy, with the gateway's
/// version and the current time.
#[derive(Debug)]
pub struct HealthResponse {
    pub status: String,
    pub version: String,
    pub timestamp: Timestamp,
}

/// The health answer for a gateway of the given version, stamped now.
pub fn health_response(version: String) -> (r: HealthResponse)
    ensures
        r.status@ == "healthy"@,
        r.version == version,
        r.timestamp.wf(),
{
    HealthResponse { status: String::from_str("healthy"), version, timestamp: now_timestamp() }
}

} // verus!
