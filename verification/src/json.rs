//! The only calls into `serde_json` that the library makes, each behind a
//! declaration whose contract is believed rather than proved. A parsed
//! value is opaque here; what it holds is named by `value_model`, the ghost
//! document it stands for, and each accessor below states its result over
//! that name, as `serde_json`'s source shows. The verified reading code in
//! `parse` can then state exactly which documents it accepts and what it
//! extracts from them.
use vstd::prelude::*;

verus! {

#[verifier::external_type_specification]
#[verifier::external_body]
pub struct ExValue(serde_json::Value);

#[verifier::external_type_specification]
#[verifier::external_body]
pub struct ExJsonError(serde_json::Error);

/// What a JSON number is to this library: the decimal text the JSON layer
/// prints for it, and the unsigned integer it reports for it when the
/// number is an integer that fits in a `u64` (what `Value::as_u64` yields).
pub ghost struct JsonNum {
    pub text: Seq<char>,
    pub int_u64: Option<u64>,
}

/// The mathematical shape of a parsed JSON document. An object is the map
/// from its keys to their values (on duplicate keys the layer keeps the
/// last, so the map is exactly what the parsed value holds).
pub ghost enum Json {
    Null,
    Bool(bool),
    Num(JsonNum),
    Str(Seq<char>),
    Arr(Seq<Json>),
    Obj(Map<Seq<char>, Json>),
}

/// The document a parsed `serde_json::Value` holds. The value is opaque to
/// the verifier, so its content is given this name, and every accessor
/// below speaks of it.
pub uninterp spec fn value_model(v: serde_json::Value) -> Json;

/// Whether a text is accepted by `serde_json::from_str::<Value>`. Acceptance
/// depends on the text alone, so it is given this name; no contract of the
/// library says which texts are accepted.
pub uninterp spec fn parses_as_json(s: Seq<char>) -> bool;

/// The document a text parses to. Parsing is a function of the text alone;
/// the name is meaningful only where `parses_as_json` holds.
pub uninterp spec fn json_of(s: Seq<char>) -> Json;

/// The compact text the JSON layer prints for a document. Objects print in
/// key order and numbers print their own text, so the printed text is a
/// function of the document alone.
pub uninterp spec fn json_text_of(j: Json) -> Seq<char>;

/// Relies on `serde_json::from_str::<Value>`: a text is accepted exactly
/// when it is well-formed for the layer, and the value it yields holds the
/// text's document.
#[verifier::external_body]
pub(crate) fn parse_value(s: &str) -> (r: Result<serde_json::Value, serde_json::Error>)
    ensures
        r is Ok <==> parses_as_json(s@),
        r matches Ok(v) ==> value_model(v) == json_of(s@),
{
    serde_json::from_str(s)
}

/// Relies on `serde_json::Value::get` with a string index: on an object it
/// looks the key up; on anything else it yields `None`.
#[verifier::external_body]
pub(crate) fn value_get<'a>(v: &'a serde_json::Value, key: &str) -> (r: Option<
    &'a serde_json::Value,
>)
    ensures
        (match value_model(*v) {
            Json::Obj(m) => if m.contains_key(key@) {
                r matches Some(w) && value_model(*w) == m[key@]
            } else {
                r is None
            },
            _ => r is None,
        }),
{
    v.get(key)
}

/// Relies on `serde_json::Value::as_array`: the element count of an array,
/// `None` for every other value.
#[verifier::external_body]
pub(crate) fn arr_len(v: &serde_json::Value) -> (r: Option<usize>)
    ensures
        (match value_model(*v) {
            Json::Arr(a) => r matches Some(n) && a.len() == n as nat,
            _ => r is None,
        }),
{
    v.as_array().map(|a: &Vec<serde_json::Value>| a.len())
}

/// Relies on `serde_json::Value::as_array` and slice indexing: the element
/// at the index, when the value is an array that has one.
#[verifier::external_body]
pub(crate) fn arr_get<'a>(v: &'a serde_json::Value, i: usize) -> (r: Option<
    &'a serde_json::Value,
>)
    ensures
        (match value_model(*v) {
            Json::Arr(a) => if (i as nat) < a.len() {
                r matches Some(w) && value_model(*w) == a[i as int]
            } else {
                r is None
            },
            _ => r is None,
        }),
{
    match v {
        serde_json::Value::Array(a) => a.get(i),
        _ => None,
    }
}

/// Relies on `serde_json::Value::as_str`: the text of a JSON string, `None`
/// for every other value.
#[verifier::external_body]
pub(crate) fn str_value<'a>(v: &'a serde_json::Value) -> (r: Option<&'a str>)
    ensures
        (match value_model(*v) {
            Json::Str(t) => r matches Some(s) && s@ == t,
            _ => r is None,
        }),
{
    v.as_str()
}

/// Relies on `serde_json::Value::as_u64`: the number when the value is an
/// integer that fits in a `u64`, `None` otherwise — exactly the model's
/// `int_u64` field.
#[verifier::external_body]
pub(crate) fn u64_value(v: &serde_json::Value) -> (r: Option<u64>)
    ensures
        (match value_model(*v) {
            Json::Num(n) => r == n.int_u64,
            _ => r is None,
        }),
{
    v.as_u64()
}

/// Relies on `serde_json::Value::as_bool`: the flag of a JSON boolean,
/// `None` for every other value.
#[verifier::external_body]
pub(crate) fn bool_value(v: &serde_json::Value) -> (r: Option<bool>)
    ensures
        (match value_model(*v) {
            Json::Bool(b) => r == Some(b),
            _ => r is None,
        }),
{
    v.as_bool()
}

/// Relies on `serde_json::Value::is_null`.
#[verifier::external_body]
pub(crate) fn is_null(v: &serde_json::Value) -> (r: bool)
    ensures
        r == (value_model(*v) is Null),
{
    v.is_null()
}

/// Relies on `serde_json::Number`'s `Display`: the decimal text of a JSON
/// number, as the layer itself would print it inside a document.
#[verifier::external_body]
pub(crate) fn num_text(v: &serde_json::Value) -> (r: Option<String>)
    ensures
        (match value_model(*v) {
            Json::Num(n) => r matches Some(t) && t@ == n.text,
            _ => r is None,
        }),
{
    match v {
        serde_json::Value::Number(n) => Some(n.to_string()),
        _ => None,
    }
}

/// Relies on `serde_json::to_string` on a `Value`: the compact printed text
/// of the value. A `Value`'s maps are keyed by strings, so the serializer
/// has no failing path for it.
#[verifier::external_body]
pub(crate) fn value_to_text(v: &serde_json::Value) -> (r: Result<String, serde_json::Error>)
    ensures
        r is Ok,
        r matches Ok(t) ==> t@ == json_text_of(value_model(*v)),
{
    serde_json::to_string(v)
}

} // verus!
