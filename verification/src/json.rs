use vstd::prelude::*;

verus! {

/// A JSON document of the serialization crate. The bridge carries such a
/// value through unread: nothing in this library looks inside one.
#[verifier::external_type_specification]
#[verifier::external_body]
pub struct ExValue(serde_json::Value);

/// Whether a string is well-formed JSON text, as the serialization
/// crate's parser decides it.
pub uninterp spec fn json_wf(s: Seq<char>) -> bool;

/// Relies on serde_json::from_str::<serde_json::Value>: it returns Ok
/// exactly when the input is well-formed JSON text, and its outcome
/// depends on the input characters alone.
#[verifier::external_body]
pub(crate) fn parse_json(s: &str) -> (r: Option<serde_json::Value>)
    ensures
        r is Some <==> json_wf(s@),
{
    serde_json::from_str::<serde_json::Value>(s).ok()
}

} // verus!
