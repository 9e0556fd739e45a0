//! Reading JSON documents: values found at JSON pointers.

use vstd::prelude::*;
use crate::config::validator::strings_view;

verus! {

/// What `serde_json` finds in a JSON document at a JSON pointer: `None` when
/// the text is not JSON, `Some(None)` when nothing is there or it is not a
/// string, `Some(Some(s))` for a string `s`.
pub uninterp spec fn json_string_lookup(doc: Seq<char>, pointer: Seq<char>) -> Option<Option<Seq<char>>>;

/// The keys of the object at a JSON pointer of a JSON document, in the
/// order `serde_json`'s map keeps them: `None` when the text is not JSON or
/// no object is there.
pub uninterp spec fn json_object_keys_at(doc: Seq<char>, pointer: Seq<char>) -> Option<Seq<Seq<char>>>;

/// The length of the array at a JSON pointer of a JSON document: `None` when
/// the text is not JSON or no array is there.
pub uninterp spec fn json_array_len_at(doc: Seq<char>, pointer: Seq<char>) -> Option<nat>;

/// Whether an object is at a JSON pointer of a JSON document (false when
/// the text is not JSON).
pub uninterp spec fn json_is_object_at(doc: Seq<char>, pointer: Seq<char>) -> bool;

/// The string at a JSON pointer of a JSON document.
///
/// Trusted: calls `serde_json::from_str::<serde_json::Value>`, then
/// `Value::pointer` and `Value::as_str`; the contract only names the result.
#[verifier::external_body]
pub(crate) fn json_lookup(doc: &str, pointer: &str) -> (r: Option<Option<String>>)
    ensures
        match r {
            None => json_string_lookup(doc@, pointer@) is None,
            Some(None) => json_string_lookup(doc@, pointer@) == Some(None::<Seq<char>>),
            Some(Some(s)) => json_string_lookup(doc@, pointer@) == Some(Some(s@)),
        },
{
    match serde_json::from_str::<serde_json::Value>(doc) {
        Ok(v) => Some(v.pointer(pointer).and_then(|x| x.as_str()).map(|x| x.to_string())),
        Err(_) => None,
    }
}

/// The keys of the object at a JSON pointer.
///
/// Trusted: calls `serde_json::from_str::<serde_json::Value>`, then
/// `Value::pointer`, `Value::as_object` and the map's `keys`; the contract
/// names the result and states that the keys of a map do not repeat.
#[verifier::external_body]
pub(crate) fn json_object_keys(doc: &str, pointer: &str) -> (r: Option<Vec<String>>)
    ensures
        match r {
            Some(v) => json_object_keys_at(doc@, pointer@) == Some(strings_view(v@))
                && strings_view(v@).no_duplicates(),
            None => json_object_keys_at(doc@, pointer@) is None,
        },
{
    let v: serde_json::Value = serde_json::from_str(doc).ok()?;
    v.pointer(pointer)?.as_object().map(|m| m.keys().cloned().collect())
}

/// The length of the array at a JSON pointer.
///
/// Trusted: calls `serde_json::from_str::<serde_json::Value>`, then
/// `Value::pointer`, `Value::as_array` and `Vec::len`; the contract names the
/// result.
#[verifier::external_body]
pub(crate) fn json_array_len(doc: &str, pointer: &str) -> (r: Option<usize>)
    ensures
        match r {
            Some(n) => json_array_len_at(doc@, pointer@) == Some(n as nat),
            None => json_array_len_at(doc@, pointer@) is None,
        },
{
    let v: serde_json::Value = serde_json::from_str(doc).ok()?;
    v.pointer(pointer)?.as_array().map(|a| a.len())
}

/// Whether an object is at a JSON pointer.
///
/// Trusted: calls `serde_json::from_str::<serde_json::Value>`, then
/// `Value::pointer` and `Value::is_object`; the contract names the result.
#[verifier::external_body]
pub(crate) fn json_is_object(doc: &str, pointer: &str) -> (r: bool)
    ensures
        r == json_is_object_at(doc@, pointer@),
{
    match serde_json::from_str::<serde_json::Value>(doc) {
        Ok(v) => v.pointer(pointer).map(|x| x.is_object()).unwrap_or(false),
        Err(_) => false,
    }
}

} // verus!
