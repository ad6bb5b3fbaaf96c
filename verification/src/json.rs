//! A mathematical model of JSON documents, and the trusted boundary to
//! `serde_json`, which parses the provider's responses and holds them as
//! `serde_json::Value` trees.
//!
//! A `serde_json::Value` is opaque to the verifier, so its contents are named
//! by the uninterpreted function [`json_model_of`]; each accessor below states
//! over that name what `serde_json`'s source shows the call returns.  All
//! validation logic that reads a document goes through these accessors and is
//! itself verified.

use vstd::prelude::*;

verus! {

/// What a JSON number answers to the three ways this crate reads one:
/// as an unsigned integer, as a signed integer, and as the decimal text that
/// the number's 64-bit float value renders to.
pub struct JsonNum {
    /// The value when the document holds an unsigned integer, within `u64`.
    pub int_val: Option<u64>,
    /// The value when the document holds an integer within `i64`.
    pub sint_val: Option<i64>,
    /// The decimal text of the number's 64-bit float value.
    pub dec: Seq<char>,
}

/// The mathematical value of a JSON document.
pub enum JsonModel {
    Null,
    Bool(bool),
    Num(JsonNum),
    Str(Seq<char>),
    Arr(Seq<JsonModel>),
    Obj(Map<Seq<char>, JsonModel>),
}

/// The contents of a parsed `serde_json::Value` tree.
pub uninterp spec fn json_model_of(v: serde_json::Value) -> JsonModel;

/// What `serde_json::from_str::<serde_json::Value>` yields on a text:
/// `Some` of the document's model exactly when the text is well-formed JSON.
pub uninterp spec fn json_of_text(s: Seq<char>) -> Option<JsonModel>;

#[verifier::external_type_specification]
#[verifier::external_body]
pub struct ExValue(serde_json::Value);

/// Relies on `serde_json::from_str::<Value>`: it returns `Ok` exactly on
/// well-formed JSON text, and the parsed tree is a function of the text alone.
#[verifier::external_body]
pub(crate) fn json_parse(s: &str) -> (r: Option<serde_json::Value>)
    ensures
        (r is Some) == (json_of_text(s@) is Some),
        r matches Some(v) ==> json_model_of(v) == json_of_text(s@).unwrap(),
{
    serde_json::from_str::<serde_json::Value>(s).ok()
}

/// Relies on `serde_json::Value::get` with a string index: on an object it
/// looks the key up, on anything else it returns `None`.
#[verifier::external_body]
pub(crate) fn json_get<'a>(v: &'a serde_json::Value, key: &str) -> (r: Option<
    &'a serde_json::Value,
>)
    ensures
        match json_model_of(*v) {
            JsonModel::Obj(m) => {
                if m.contains_key(key@) {
                    r matches Some(f) && json_model_of(*f) == m[key@]
                } else {
                    r is None
                }
            },
            _ => r is None,
        },
{
    v.get(key)
}

/// Relies on `serde_json::Value::get` with a `usize` index: on an array it
/// returns the element when the index is in bounds, on anything else `None`.
#[verifier::external_body]
pub(crate) fn json_index<'a>(v: &'a serde_json::Value, i: usize) -> (r: Option<
    &'a serde_json::Value,
>)
    ensures
        match json_model_of(*v) {
            JsonModel::Arr(a) => {
                if i < a.len() {
                    r matches Some(e) && json_model_of(*e) == a[i as int]
                } else {
                    r is None
                }
            },
            _ => r is None,
        },
{
    v.get(i)
}

/// Relies on `serde_json::Value::as_array`: `Some` of the element vector
/// exactly on an array, whose length this wrapper hands back.
#[verifier::external_body]
pub(crate) fn json_array_len(v: &serde_json::Value) -> (r: Option<usize>)
    ensures
        match json_model_of(*v) {
            JsonModel::Arr(a) => r matches Some(n) && n == a.len(),
            _ => r is None,
        },
{
    v.as_array().map(|a| a.len())
}

/// Relies on `serde_json::Value::as_str`: `Some` of the text exactly on a
/// JSON string.
#[verifier::external_body]
pub(crate) fn json_as_string(v: &serde_json::Value) -> (r: Option<String>)
    ensures
        match json_model_of(*v) {
            JsonModel::Str(s) => r matches Some(t) && t@ == s,
            _ => r is None,
        },
{
    v.as_str().map(|s| s.to_string())
}

/// Relies on `serde_json::Value::as_u64`: `Some` exactly when the document
/// holds an unsigned integer within `u64`.
#[verifier::external_body]
pub(crate) fn json_as_u64(v: &serde_json::Value) -> (r: Option<u64>)
    ensures
        match json_model_of(*v) {
            JsonModel::Num(n) => r == n.int_val,
            _ => r is None,
        },
{
    v.as_u64()
}

/// Relies on `serde_json::Value::as_i64`: `Some` exactly when the document
/// holds an integer within `i64`.
#[verifier::external_body]
pub(crate) fn json_as_i64(v: &serde_json::Value) -> (r: Option<i64>)
    ensures
        match json_model_of(*v) {
            JsonModel::Num(n) => r == n.sint_val,
            _ => r is None,
        },
{
    v.as_i64()
}

/// Relies on `serde_json::Value::as_f64`, which answers `Some` on every JSON
/// number, and on the standard float rendering: the result is the decimal
/// text of the number's 64-bit float value.
#[verifier::external_body]
pub(crate) fn json_as_decimal(v: &serde_json::Value) -> (r: Option<String>)
    ensures
        match json_model_of(*v) {
            JsonModel::Num(n) => r matches Some(d) && d@ == n.dec,
            _ => r is None,
        },
{
    v.as_f64().map(|f| format!("{}", f))
}

/// Relies on `serde_json::Value::is_null`.
#[verifier::external_body]
pub(crate) fn json_is_null(v: &serde_json::Value) -> (r: bool)
    ensures
        r == (json_model_of(*v) is Null),
{
    v.is_null()
}

} // verus!
