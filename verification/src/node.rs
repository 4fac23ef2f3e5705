//! Raw node reader: turning the text of a single virtual filesystem
//! node into an unsigned integer.
//!
//! The caller hands over the node's text, or `None` when the node was
//! missing or unreadable; every failure mode collapses to `None`, so
//! metric collection never aborts because one node is absent.

use crate::text::{parse_u64_str, spec_parse_u64, spec_trim, trim_str};
use vstd::prelude::*;

verus! {

/// The text of an optional node, as a sequence of characters.
pub open spec fn node_view(content: Option<String>) -> Option<Seq<char>> {
    match content {
        Some(s) => Some(s@),
        None => None,
    }
}

/// What reading an unsigned integer from a node yields: the trimmed
/// text parsed as a `u64`; an absent node, or text that is not a valid
/// non-negative integer, collapses to `None`.
pub open spec fn spec_read_u64(content: Option<Seq<char>>) -> Option<u64> {
    match content {
        Some(s) => spec_parse_u64(spec_trim(s)),
        None => None,
    }
}

/// Raw node reader: trims the node text and parses it as a `u64`,
/// exactly as `spec_read_u64` describes. `content` is `None` when the
/// node could not be read at all.
pub fn read_u64(content: &Option<String>) -> (r: Option<u64>)
    ensures
        r == spec_read_u64(node_view(*content)),
{
    match content {
        Some(s) => parse_u64_str(trim_str(s.as_str())),
        None => None,
    }
}

} // verus!
