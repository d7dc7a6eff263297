//! What one HTTP request came back with.
use vstd::prelude::*;

use crate::json::Json;

verus! {

/// The outcome of one request, as the transport hands it over.
pub enum Reply {
    /// The request did not complete: no connection, a timeout, a broken body.
    TransportError,
    /// The task that made the request did not run to completion.
    Abandoned,
    /// A response arrived; `body` is its JSON, where it was JSON.
    Response { status: u16, body: Option<Json> },
}

/// A status in the success range.
pub open spec fn success_status(status: u16) -> bool {
    200 <= status <= 299
}

/// Whether `status` is in the success range.
pub fn is_success(status: u16) -> (r: bool)
    ensures
        r == success_status(status),
{
    200 <= status && status <= 299
}

} // verus!
