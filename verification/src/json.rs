//! The decode collaborator: whether a body text is a well-formed JSON
//! document, decided by serde_json and named by `parses_as_json`.

use vstd::prelude::*;

verus! {

#[verifier::external_type_specification]
#[verifier::external_body]
pub struct ExValue(serde_json::Value);

/// Whether serde_json accepts the text as a JSON document. The parse is a
/// pure function of the characters, so the outcome has a name that contracts
/// can share; what the document contains stays unstated.
pub uninterp spec fn parses_as_json(s: Seq<char>) -> bool;

/// Relies on serde_json::from_str::<Value>: parsing depends on the
/// characters of the text alone, and succeeds exactly on well-formed JSON.
#[verifier::external_body]
pub(crate) fn parse_json(s: &str) -> (r: Option<serde_json::Value>)
    ensures
        (r is Some <==> parses_as_json(s@)),
{
    serde_json::from_str::<serde_json::Value>(s).ok()
}

} // verus!
