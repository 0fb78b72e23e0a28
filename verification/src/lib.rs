//! A typed HTTP client core for a JSON API: envelope normalization of
//! response bodies, `type`-stripping of outbound payloads, and a retry
//! policy with exponential backoff driving a request dispatcher.
//!
//! The library holds the decision logic; the surrounding binary performs
//! the network I/O and feeds outcomes back in.

pub mod dispatch;
pub mod envelope;
pub mod json;
pub mod retry;
pub mod wire;

use vstd::prelude::*;

verus! {

/// Status codes in `200..400` count as success: the request needs no retry
/// and its body is handed to normalization.
pub open spec fn spec_status_success(status: u16) -> bool {
    200 <= status < 400
}

/// Returns whether a response status terminates the attempt loop successfully.
pub fn status_is_success(status: u16) -> (r: bool)
    ensures
        r == spec_status_success(status),
{
    200 <= status && status < 400
}

} // verus!
