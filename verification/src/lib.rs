//! Snipet: a verified core for a snippet-publishing command-line client.
//!
//! The library holds the logic of the client: the session record and its
//! on-disk codec, the heuristic language classifier, the backend error
//! normalizer, and the construction and interpretation of the three API
//! exchanges (register, authenticate, create snippet). Network and file
//! I/O live outside the library and hand it plain values.

use vstd::prelude::*;

pub mod api;
pub mod classify;
pub mod errors;
pub mod jsonenc;
pub mod jsonval;
pub mod session;
pub mod strutil;

verus! {

/// True exactly when `status` is an HTTP success code.
pub open spec fn spec_is_success(status: u16) -> bool {
    200 <= status < 300
}

/// Classifies an HTTP status code as success (2xx) or failure.
pub fn is_success_status(status: u16) -> (r: bool)
    ensures
        r == spec_is_success(status),
{
    200 <= status && status < 300
}

} // verus!
