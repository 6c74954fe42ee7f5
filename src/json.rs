//! The JSON documents of the geocoding service, read through `serde_json`.
use vstd::prelude::*;

verus! {

#[verifier::external_type_specification]
#[verifier::external_body]
pub struct ExJsonValue(serde_json::Value);

#[verifier::external_type_specification]
#[verifier::external_body]
pub struct ExJsonError(serde_json::Error);

/// What a JSON value holds, as plain values.
pub enum JsonModel {
    Null,
    Bool(bool),
    /// A number, held as the text that `serde_json` prints for it.
    Number(Seq<char>),
    Str(Seq<char>),
    Array(Seq<JsonModel>),
    Object(Map<Seq<char>, JsonModel>),
}

/// What a parsed `serde_json::Value` holds.
pub uninterp spec fn json_view(v: serde_json::Value) -> JsonModel;

/// The document that `serde_json` reads from a text, or `None` where the
/// text is not JSON.
pub uninterp spec fn parsed_json(text: Seq<char>) -> Option<JsonModel>;

/// The member `key` of an object; `None` for a missing key or a non-object.
pub open spec fn member_of(m: JsonModel, key: Seq<char>) -> Option<JsonModel> {
    match m {
        JsonModel::Object(fields) => if fields.contains_key(key) {
            Some(fields[key])
        } else {
            None
        },
        _ => None,
    }
}

/// The element `i` of an array; `None` past its end or for a non-array.
pub open spec fn element_of(m: JsonModel, i: int) -> Option<JsonModel> {
    match m {
        JsonModel::Array(items) => if 0 <= i < items.len() {
            Some(items[i])
        } else {
            None
        },
        _ => None,
    }
}

/// Relies on `serde_json::Value::is_array`: whether the value is an array.
pub assume_specification[ serde_json::Value::is_array ](v: &serde_json::Value) -> (r: bool)
    ensures
        r == (json_view(*v) is Array),
;

/// Relies on `serde_json::from_str`: a text parses to one document, or fails.
#[verifier::external_body]
pub(crate) fn parse_document(text: &str) -> (r: Result<serde_json::Value, serde_json::Error>)
    ensures
        r is Ok <==> parsed_json(text@) is Some,
        r matches Ok(v) ==> parsed_json(text@) == Some(json_view(v)),
{
    serde_json::from_str::<serde_json::Value>(text)
}

/// Relies on `serde_json::Value::get` with a `&str`: the member of an object
/// under that key.
#[verifier::external_body]
pub(crate) fn member<'a>(v: &'a serde_json::Value, key: &str) -> (r: Option<&'a serde_json::Value>)
    ensures
        r is Some <==> member_of(json_view(*v), key@) is Some,
        r matches Some(x) ==> member_of(json_view(*v), key@) == Some(json_view(*x)),
{
    v.get(key)
}

/// Relies on `serde_json::Value::get` with a `usize`: the element of an array
/// at that position.
#[verifier::external_body]
pub(crate) fn element<'a>(v: &'a serde_json::Value, i: usize) -> (r: Option<&'a serde_json::Value>)
    ensures
        r is Some <==> element_of(json_view(*v), i as int) is Some,
        r matches Some(x) ==> element_of(json_view(*v), i as int) == Some(json_view(*x)),
{
    v.get(i)
}

/// Relies on the `Display` of `serde_json::Number`: the text of a number.
#[verifier::external_body]
pub(crate) fn number_text(v: &serde_json::Value) -> (r: Option<String>)
    ensures
        r is Some <==> json_view(*v) is Number,
        r matches Some(t) ==> json_view(*v) == JsonModel::Number(t@),
{
    match v {
        serde_json::Value::Number(n) => Some(n.to_string()),
        _ => None,
    }
}

} // verus!
