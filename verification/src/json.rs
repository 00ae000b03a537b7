//! The few JSON facts that detection reads, through `serde_json`.
use vstd::prelude::*;

verus! {

/// A parsed JSON document of `serde_json`.
#[verifier::external_type_specification]
#[verifier::external_body]
pub struct ExJsonValue(serde_json::Value);

/// The top-level members of the JSON document `text` whose values are JSON
/// strings, key to string; `None` when `text` is not a JSON document.
pub uninterp spec fn json_top_strings(text: Seq<char>) -> Option<Map<Seq<char>, Seq<char>>>;

/// The members of the parsed document `v` that hold JSON strings, key to
/// string (empty unless `v` is an object).
pub uninterp spec fn json_string_members(v: serde_json::Value) -> Map<Seq<char>, Seq<char>>;

/// `serde_json::from_str::<serde_json::Value>`: parses a whole JSON document.
/// Succeeds exactly when `text` is one, and the parsed value has the string
/// members that `json_top_strings` names for the text.
#[verifier::external_body]
pub(crate) fn parse_json(text: &str) -> (r: Option<serde_json::Value>)
    ensures
        r is Some <==> json_top_strings(text@) is Some,
        r matches Some(v) ==> json_string_members(v) == json_top_strings(text@)->0,
{
    serde_json::from_str::<serde_json::Value>(text).ok()
}

/// `serde_json::Value::get` with a string key, then `serde_json::Value::as_str`:
/// the member `key` of the object `v` when it holds a JSON string.
#[verifier::external_body]
pub(crate) fn json_string_member(v: &serde_json::Value, key: &str) -> (r: Option<String>)
    ensures
        r is Some <==> json_string_members(*v).contains_key(key@),
        r matches Some(s) ==> s@ == json_string_members(*v)[key@],
{
    Some(v.get(key)?.as_str()?.to_owned())
}

} // verus!
