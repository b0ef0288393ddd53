//! Lookups in JSON documents, made by serde_json.
//!
//! A document travels through the library as its text. Each lookup parses the
//! text and follows a JSON pointer (RFC 6901), such as `/state/mode`; what it
//! finds is a function of the text and the pointer alone, named below.
use vstd::prelude::*;
use crate::text::opt_view;

verus! {

/// The string found at `pointer` in the JSON document `doc`, if the document
/// parses and holds a string there.
pub uninterp spec fn json_str_at(doc: Seq<char>, pointer: Seq<char>) -> Option<Seq<char>>;

/// The boolean found at `pointer` in the JSON document `doc`, if the document
/// parses and holds a boolean there.
pub uninterp spec fn json_bool_at(doc: Seq<char>, pointer: Seq<char>) -> Option<bool>;

/// Whether the JSON document `doc` parses and holds any value at `pointer`.
pub uninterp spec fn json_present_at(doc: Seq<char>, pointer: Seq<char>) -> bool;

/// The elements of the JSON document `doc`, each as compact JSON text, if the
/// document parses and is an array.
pub uninterp spec fn json_array_items(doc: Seq<char>) -> Option<Seq<Seq<char>>>;

/// The characters of each string of a list.
pub open spec fn views_of(v: Seq<String>) -> Seq<Seq<char>> {
    v.map_values(|s: String| s@)
}

/// Relies on serde_json::from_str, Value::pointer and Value::as_str: parse
/// `doc`, follow `pointer`, and read a string there.
#[verifier::external_body]
pub(crate) fn str_at(doc: &str, pointer: &str) -> (r: Option<String>)
    ensures
        opt_view(r) == json_str_at(doc@, pointer@),
{
    let v: serde_json::Value = serde_json::from_str(doc).ok()?;
    v.pointer(pointer)?.as_str().map(String::from)
}

/// Relies on serde_json::from_str, Value::pointer and Value::as_bool: parse
/// `doc`, follow `pointer`, and read a boolean there.
#[verifier::external_body]
pub(crate) fn bool_at(doc: &str, pointer: &str) -> (r: Option<bool>)
    ensures
        r == json_bool_at(doc@, pointer@),
{
    let v: serde_json::Value = serde_json::from_str(doc).ok()?;
    v.pointer(pointer)?.as_bool()
}

/// Relies on serde_json::from_str and Value::pointer: parse `doc` and tell
/// whether `pointer` leads to a value.
#[verifier::external_body]
pub(crate) fn present_at(doc: &str, pointer: &str) -> (r: bool)
    ensures
        r == json_present_at(doc@, pointer@),
{
    match serde_json::from_str::<serde_json::Value>(doc) {
        Ok(v) => v.pointer(pointer).is_some(),
        Err(_) => false,
    }
}

/// Relies on serde_json::from_str, Value::as_array and Value's `to_string`:
/// parse `doc` as an array and hand out each element as JSON text.
#[verifier::external_body]
pub(crate) fn array_items(doc: &str) -> (r: Option<Vec<String>>)
    ensures
        match r {
            Some(v) => json_array_items(doc@) == Some(views_of(v@)),
            None => json_array_items(doc@) is None,
        },
{
    let v: serde_json::Value = serde_json::from_str(doc).ok()?;
    Some(v.as_array()?.iter().map(|e| e.to_string()).collect())
}

} // verus!
