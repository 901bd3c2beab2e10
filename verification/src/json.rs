//! Trusted access to JSON documents through `serde_json`.
//!
//! Every accessor takes the document as text together with a JSON-pointer
//! path, so what it returns is a function of those two values alone; each
//! result is given an uninterpreted name that the accessor's contract applies.
//! Nothing relates the names of different accessors to one another: the
//! decoders built on top state their results through these names only.

use vstd::prelude::*;

verus! {

/// Whether the document parses as a JSON object.
pub uninterp spec fn json_object(doc: Seq<char>) -> bool;

/// The string at the pointer path, if the path resolves to a JSON string.
pub uninterp spec fn json_str(doc: Seq<char>, ptr: Seq<char>) -> Option<Seq<char>>;

/// The unsigned integer at the pointer path, if the path resolves to a JSON
/// number representable as one.
pub uninterp spec fn json_u64(doc: Seq<char>, ptr: Seq<char>) -> Option<u64>;

/// The boolean at the pointer path, if the path resolves to a JSON boolean.
pub uninterp spec fn json_bool(doc: Seq<char>, ptr: Seq<char>) -> Option<bool>;

/// The rendered text of the JSON number at the pointer path, if the path
/// resolves to a number of any kind.
pub uninterp spec fn json_num_text(doc: Seq<char>, ptr: Seq<char>) -> Option<Seq<char>>;

/// Whether the pointer path resolves to a value other than null.
pub uninterp spec fn json_present(doc: Seq<char>, ptr: Seq<char>) -> bool;

/// The length of the array at the pointer path, if the path resolves to a
/// JSON array.
pub uninterp spec fn json_arr_len(doc: Seq<char>, ptr: Seq<char>) -> Option<u64>;

/// The string at index `i` of the array at the pointer path.
pub uninterp spec fn json_elem_str(doc: Seq<char>, ptr: Seq<char>, i: u64) -> Option<Seq<char>>;

/// The string field `field` of the object at index `i` of the array at the
/// pointer path.
pub uninterp spec fn json_item_str(
    doc: Seq<char>,
    ptr: Seq<char>,
    i: u64,
    field: Seq<char>,
) -> Option<Seq<char>>;

/// Relies on serde_json::from_str and serde_json::Value::is_object: whether
/// the document is a JSON object.
#[verifier::external_body]
pub(crate) fn is_json_object(doc: &str) -> (r: bool)
    ensures
        r == json_object(doc@),
{
    match serde_json::from_str::<serde_json::Value>(doc) {
        Ok(v) => v.is_object(),
        Err(_) => false,
    }
}

/// Relies on serde_json::Value::pointer and serde_json::Value::as_str: the
/// string value at a JSON-pointer path.
#[verifier::external_body]
pub(crate) fn get_str(doc: &str, ptr: &str) -> (r: Option<String>)
    ensures
        r.deep_view() == json_str(doc@, ptr@),
{
    match serde_json::from_str::<serde_json::Value>(doc) {
        Ok(v) => match v.pointer(ptr) {
            Some(x) => match x.as_str() {
                Some(s) => Some(s.to_string()),
                None => None,
            },
            None => None,
        },
        Err(_) => None,
    }
}

/// Relies on serde_json::Value::pointer and serde_json::Value::as_u64: the
/// unsigned integer at a JSON-pointer path.
#[verifier::external_body]
pub(crate) fn get_u64(doc: &str, ptr: &str) -> (r: Option<u64>)
    ensures
        r == json_u64(doc@, ptr@),
{
    match serde_json::from_str::<serde_json::Value>(doc) {
        Ok(v) => match v.pointer(ptr) {
            Some(x) => x.as_u64(),
            None => None,
        },
        Err(_) => None,
    }
}

/// Relies on serde_json::Value::pointer and serde_json::Value::as_bool: the
/// boolean at a JSON-pointer path.
#[verifier::external_body]
pub(crate) fn get_bool(doc: &str, ptr: &str) -> (r: Option<bool>)
    ensures
        r == json_bool(doc@, ptr@),
{
    match serde_json::from_str::<serde_json::Value>(doc) {
        Ok(v) => match v.pointer(ptr) {
            Some(x) => x.as_bool(),
            None => None,
        },
        Err(_) => None,
    }
}

/// Relies on serde_json::Value::pointer, serde_json::Value::as_number and
/// serde_json::Number's Display form: the text of the number at a
/// JSON-pointer path.
#[verifier::external_body]
pub(crate) fn get_num_text(doc: &str, ptr: &str) -> (r: Option<String>)
    ensures
        r.deep_view() == json_num_text(doc@, ptr@),
{
    match serde_json::from_str::<serde_json::Value>(doc) {
        Ok(v) => match v.pointer(ptr) {
            Some(x) => match x.as_number() {
                Some(n) => Some(n.to_string()),
                None => None,
            },
            None => None,
        },
        Err(_) => None,
    }
}

/// Relies on serde_json::Value::pointer and serde_json::Value::is_null:
/// whether a JSON-pointer path resolves to a value other than null.
#[verifier::external_body]
pub(crate) fn has_value(doc: &str, ptr: &str) -> (r: bool)
    ensures
        r == json_present(doc@, ptr@),
{
    match serde_json::from_str::<serde_json::Value>(doc) {
        Ok(v) => match v.pointer(ptr) {
            Some(x) => !x.is_null(),
            None => false,
        },
        Err(_) => false,
    }
}

/// Relies on serde_json::Value::pointer and serde_json::Value::as_array: the
/// length of the array at a JSON-pointer path.
#[verifier::external_body]
pub(crate) fn get_arr_len(doc: &str, ptr: &str) -> (r: Option<u64>)
    ensures
        r == json_arr_len(doc@, ptr@),
{
    match serde_json::from_str::<serde_json::Value>(doc) {
        Ok(v) => match v.pointer(ptr) {
            Some(x) => match x.as_array() {
                Some(a) => Some(a.len() as u64),
                None => None,
            },
            None => None,
        },
        Err(_) => None,
    }
}

/// Relies on serde_json::Value::pointer and serde_json::Value::as_str: the
/// string at index `i` of the array at a JSON-pointer path.
#[verifier::external_body]
pub(crate) fn get_elem_str(doc: &str, ptr: &str, i: u64) -> (r: Option<String>)
    ensures
        r.deep_view() == json_elem_str(doc@, ptr@, i),
{
    let p = format!("{}/{}", ptr, i);
    match serde_json::from_str::<serde_json::Value>(doc) {
        Ok(v) => match v.pointer(&p) {
            Some(x) => match x.as_str() {
                Some(s) => Some(s.to_string()),
                None => None,
            },
            None => None,
        },
        Err(_) => None,
    }
}

/// Relies on serde_json::Value::pointer and serde_json::Value::as_str: the
/// string field of the object at index `i` of the array at a JSON-pointer
/// path.
#[verifier::external_body]
pub(crate) fn get_item_str(doc: &str, ptr: &str, i: u64, field: &str) -> (r: Option<String>)
    ensures
        r.deep_view() == json_item_str(doc@, ptr@, i, field@),
{
    let p = format!("{}/{}/{}", ptr, i, field);
    match serde_json::from_str::<serde_json::Value>(doc) {
        Ok(v) => match v.pointer(&p) {
            Some(x) => match x.as_str() {
                Some(s) => Some(s.to_string()),
                None => None,
            },
            None => None,
        },
        Err(_) => None,
    }
}

} // verus!
