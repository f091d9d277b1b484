//! Reading fields of JSON audit payloads, parsed by `serde_json`.
use vstd::prelude::*;

verus! {

/// The string stored under top-level `key` of the JSON document `text`:
/// `None` when `text` is not JSON, has no such key, or holds a non-string
/// value there.
pub uninterp spec fn json_top_level_str(text: Seq<char>, key: Seq<char>) -> Option<Seq<char>>;

/// Parses `text` with `serde_json::from_str::<serde_json::Value>` and
/// reads the string at top-level `key` (`Value::get`, then
/// `Value::as_str`).  Trusted: the result is a function of the text and
/// the key alone.
#[verifier::external_body]
pub(crate) fn json_string_field(text: &str, key: &str) -> (r: Option<String>)
    ensures
        match r {
            Some(s) => json_top_level_str(text@, key@) == Some(s@),
            None => json_top_level_str(text@, key@) is None,
        },
{
    match serde_json::from_str::<serde_json::Value>(text) {
        Ok(doc) => match doc.get(key).and_then(serde_json::Value::as_str) {
            Some(s) => Some(s.to_string()),
            None => None,
        },
        Err(_) => None,
    }
}

} // verus!
