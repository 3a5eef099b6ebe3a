//! A single trusted check that a string parses as JSON, shared by project
//! loading and remote-response validation.

use vstd::prelude::*;

verus! {

/// Whether the JSON parser accepts `s`; a pure function of the string.
pub uninterp spec fn json_accepted(s: Seq<char>) -> bool;

/// Relies on `serde_json::from_str::<serde_json::Value>`: whether the string
/// is valid JSON. The parser is deterministic, never panics, and bounds its
/// recursion, so acceptance depends on the string alone.
#[verifier::external_body]
pub(crate) fn json_parses(s: &str) -> (r: bool)
    ensures
        r == json_accepted(s@),
{
    serde_json::from_str::<serde_json::Value>(s).is_ok()
}

} // verus!
