//! Bodies shared by several endpoints.

use vstd::prelude::*;

verus! {

/// Body of every reply that reports a failure.
pub struct ErrorResponse {
    pub error: String,
}

/// Body of a reply that reports a success in words.
pub struct MessageResponse {
    pub message: String,
}

/// The text of an optional string.
pub open spec fn opt_text(s: Option<String>) -> Option<Seq<char>> {
    match s {
        Some(t) => Some(t@),
        None => None,
    }
}

} // verus!
