//! What descriptor parsing asks of serde_json, stated over the JSON text.
use vstd::prelude::*;

verus! {

/// Whether serde_json accepts `text` as a JSON document.
pub uninterp spec fn json_accepts(text: Seq<char>) -> bool;

/// The string that the JSON pointer `pointer` addresses in the document
/// `text`, if it addresses a string.
pub uninterp spec fn json_str_at(text: Seq<char>, pointer: Seq<char>) -> Option<Seq<char>>;

/// Whether the JSON pointer `pointer` addresses an object in the document
/// `text`.
pub uninterp spec fn json_object_at(text: Seq<char>, pointer: Seq<char>) -> bool;

/// Relies on `serde_json::from_str::<Value>`: it succeeds or fails on the
/// text alone.
#[verifier::external_body]
pub(crate) fn json_is_valid(text: &str) -> (r: bool)
    ensures
        r == json_accepts(text@),
{
    serde_json::from_str::<serde_json::Value>(text).is_ok()
}

/// Relies on `serde_json::Value::pointer` and `Value::as_str` on the document
/// that `serde_json::from_str` reads from `text`: the result depends on the
/// text and the pointer alone, and is `None` when the text is not JSON.
#[verifier::external_body]
pub(crate) fn json_str(text: &str, pointer: &str) -> (r: Option<String>)
    ensures
        match r {
            Some(s) => json_str_at(text@, pointer@) == Some(s@),
            None => json_str_at(text@, pointer@) is None,
        },
        !json_accepts(text@) ==> r is None,
{
    match serde_json::from_str::<serde_json::Value>(text) {
        Ok(doc) => match doc.pointer(pointer) {
            Some(v) => match v.as_str() {
                Some(s) => Some(s.to_string()),
                None => None,
            },
            None => None,
        },
        Err(_) => None,
    }
}

/// Relies on `serde_json::Value::pointer` and `Value::is_object` on the
/// document that `serde_json::from_str` reads from `text`: the result
/// depends on the text and the pointer alone, and is `false` when the text
/// is not JSON.
#[verifier::external_body]
pub(crate) fn json_object(text: &str, pointer: &str) -> (r: bool)
    ensures
        r == json_object_at(text@, pointer@),
        !json_accepts(text@) ==> !r,
{
    match serde_json::from_str::<serde_json::Value>(text) {
        Ok(doc) => match doc.pointer(pointer) {
            Some(v) => v.is_object(),
            None => false,
        },
        Err(_) => false,
    }
}

} // verus!
