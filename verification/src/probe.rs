//! Deciding a reachability probe: a header-only request is sent with a
//! short timeout, and every outcome collapses to one boolean. A server that
//! answered at all — even with a client error — counts as reachable; a
//! transport failure or a server error does not.
use vstd::prelude::*;

verus! {

/// How long a probe waits for an answer, in seconds.
pub const PROBE_TIMEOUT_SECS: u64 = 5;

/// A status code in the success range.
pub open spec fn is_success_status(status: u16) -> bool {
    200 <= status < 300
}

/// A status code in the client-error range.
pub open spec fn is_client_error_status(status: u16) -> bool {
    400 <= status < 500
}

/// What a probe reports for a given transport outcome: `Some(status)` when
/// a response arrived, `None` when the transport failed outright. A
/// response whose status is a success or a client error means something is
/// listening and minimally responsive; anything else — including a server
/// error — counts as unreachable.
pub open spec fn probe_reachable_spec(outcome: Option<u16>) -> bool {
    match outcome {
        Some(status) => is_success_status(status) || is_client_error_status(status),
        None => false,
    }
}

/// Collapses a probe's transport outcome to the reported boolean. It is
/// total: no outcome is an error.
pub fn probe_reachable(outcome: Option<u16>) -> (r: bool)
    ensures
        r == probe_reachable_spec(outcome),
{
    match outcome {
        Some(status) => (200 <= status && status < 300) || (400 <= status && status < 500),
        None => false,
    }
}

} // verus!
