//! The verdict of one health probe.

use vstd::prelude::*;
use crate::text::has_prefix;

verus! {

/// A response is healthy when it opens with a 200 status line on HTTP/1.1 or
/// HTTP/1.0.
pub open spec fn healthy_response(response: Seq<char>) -> bool {
    "HTTP/1.1 200"@.is_prefix_of(response) || "HTTP/1.0 200"@.is_prefix_of(response)
}

/// Reads the whole response text of a health request and says whether the
/// backend answered healthy.
pub fn response_is_healthy(response: &str) -> (r: bool)
    ensures
        r == healthy_response(response@),
{
    has_prefix(response, "HTTP/1.1 200") || has_prefix(response, "HTTP/1.0 200")
}

} // verus!
