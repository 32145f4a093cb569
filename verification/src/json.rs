//! Trusted boundary to `serde_json`.  The wire payloads of the catalog
//! service are loosely-typed JSON documents; the pipeline queries them
//! through the wrappers below, each of which takes the document text and
//! answers one field lookup.  Every wrapper's result is a function of the
//! text and the keys alone, so each is pinned to an uninterpreted name and
//! the contracts downstream are exact over those names.

use vstd::prelude::*;

use crate::strutil::opt_len_view;
use crate::strutil::opt_str_view;

verus! {

/// Whether the text parses as a JSON document.
pub uninterp spec fn json_parses(t: Seq<char>) -> bool;

/// Relies on `serde_json::from_str::<Value>`: parses a JSON document, or
/// fails; the outcome depends on the text alone.
#[verifier::external_body]
pub fn json_doc_ok(t: &str) -> (r: bool)
    ensures
        r == json_parses(t@),
{
    serde_json::from_str::<serde_json::Value>(t).is_ok()
}

/// The string under key `k` of the document `t`: `None` when the text
/// does not parse, the key is absent, or its value is not a string.
pub uninterp spec fn string_field_of(t: Seq<char>, k: Seq<char>) -> Option<Seq<char>>;

/// Relies on serde_json's `from_str`, `Value::get` and `Value::as_str`:
/// reads one top-level string field of a document.
#[verifier::external_body]
pub fn json_string_field(t: &str, k: &str) -> (r: Option<String>)
    ensures
        opt_str_view(r) == string_field_of(t@, k@),
{
    let doc: serde_json::Value = match serde_json::from_str(t) {
        Ok(v) => v,
        Err(_) => return None,
    };
    match doc.get(k) {
        Some(v) => v.as_str().map(|s| s.to_string()),
        None => None,
    }
}

/// The string under the path `k1.k2` of the document `t`, or `None`.
pub uninterp spec fn string_field2_of(t: Seq<char>, k1: Seq<char>, k2: Seq<char>) -> Option<
    Seq<char>,
>;

/// Relies on serde_json's `from_str`, `Value::get` and `Value::as_str`:
/// reads one string field nested one object deep.
#[verifier::external_body]
pub fn json_string_field2(t: &str, k1: &str, k2: &str) -> (r: Option<String>)
    ensures
        opt_str_view(r) == string_field2_of(t@, k1@, k2@),
{
    let doc: serde_json::Value = match serde_json::from_str(t) {
        Ok(v) => v,
        Err(_) => return None,
    };
    match doc.get(k1).and_then(|o| o.get(k2)) {
        Some(v) => v.as_str().map(|s| s.to_string()),
        None => None,
    }
}

/// The unsigned number under key `k` of the document `t`, or `None`.
pub uninterp spec fn u64_field_of(t: Seq<char>, k: Seq<char>) -> Option<u64>;

/// Relies on serde_json's `from_str`, `Value::get` and `Value::as_u64`:
/// reads one top-level number field that is a non-negative integer.
#[verifier::external_body]
pub fn json_u64_field(t: &str, k: &str) -> (r: Option<u64>)
    ensures
        r == u64_field_of(t@, k@),
{
    let doc: serde_json::Value = match serde_json::from_str(t) {
        Ok(v) => v,
        Err(_) => return None,
    };
    doc.get(k).and_then(|v| v.as_u64())
}

/// The unsigned number under the path `k1.k2` of the document `t`.
pub uninterp spec fn u64_field2_of(t: Seq<char>, k1: Seq<char>, k2: Seq<char>) -> Option<u64>;

/// Relies on serde_json's `from_str`, `Value::get` and `Value::as_u64`:
/// reads one number field nested one object deep.
#[verifier::external_body]
pub fn json_u64_field2(t: &str, k1: &str, k2: &str) -> (r: Option<u64>)
    ensures
        r == u64_field2_of(t@, k1@, k2@),
{
    let doc: serde_json::Value = match serde_json::from_str(t) {
        Ok(v) => v,
        Err(_) => return None,
    };
    doc.get(k1).and_then(|o| o.get(k2)).and_then(|v| v.as_u64())
}

/// The length of the array under key `k` of the document `t`: `None`
/// when the text does not parse, the key is absent, or its value is not
/// an array.
pub uninterp spec fn array_len_of(t: Seq<char>, k: Seq<char>) -> Option<int>;

/// Relies on serde_json's `from_str`, `Value::get` and `Value::as_array`:
/// counts the elements of one top-level array field.
#[verifier::external_body]
pub fn json_array_len(t: &str, k: &str) -> (r: Option<usize>)
    ensures
        opt_len_view(r) == array_len_of(t@, k@),
{
    let doc: serde_json::Value = match serde_json::from_str(t) {
        Ok(v) => v,
        Err(_) => return None,
    };
    doc.get(k).and_then(|v| v.as_array()).map(|a| a.len())
}

/// The string under key `sub` of element `i` of the array `k`, or `None`.
pub uninterp spec fn array_string_of(t: Seq<char>, k: Seq<char>, i: int, sub: Seq<char>) -> Option<
    Seq<char>,
>;

/// Relies on serde_json's `from_str`, `Value::get`, `Value::as_array` and
/// `Value::as_str`: reads one string field of one array element.
#[verifier::external_body]
pub fn json_array_string_field(t: &str, k: &str, i: usize, sub: &str) -> (r: Option<String>)
    ensures
        opt_str_view(r) == array_string_of(t@, k@, i as int, sub@),
{
    let doc: serde_json::Value = match serde_json::from_str(t) {
        Ok(v) => v,
        Err(_) => return None,
    };
    match doc.get(k).and_then(|v| v.as_array()).and_then(|a| a.get(i)).and_then(|e| e.get(sub)) {
        Some(v) => v.as_str().map(|s| s.to_string()),
        None => None,
    }
}

/// Element `i` of the array `k`, unwrapped at key `sub` and rendered back
/// to document text, or `None`.  serde_json serializes a parsed value
/// deterministically (object keys are kept in a `BTreeMap`), so the
/// result depends on the document text and the keys alone.
pub uninterp spec fn array_object_text_of(
    t: Seq<char>,
    k: Seq<char>,
    i: int,
    sub: Seq<char>,
) -> Option<Seq<char>>;

/// Relies on serde_json's `from_str`, `Value::get`, `Value::as_array` and
/// `Value::to_string`: hands one wrapped array element back as text.
#[verifier::external_body]
pub fn json_array_object_text(t: &str, k: &str, i: usize, sub: &str) -> (r: Option<String>)
    ensures
        opt_str_view(r) == array_object_text_of(t@, k@, i as int, sub@),
{
    let doc: serde_json::Value = match serde_json::from_str(t) {
        Ok(v) => v,
        Err(_) => return None,
    };
    doc.get(k).and_then(|v| v.as_array()).and_then(|a| a.get(i)).and_then(|e| e.get(sub)).map(
        |w| w.to_string(),
    )
}

} // verus!
