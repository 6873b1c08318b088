//! JSON documents, parsed by serde_json and read through a few accessors.
//! What a parsed document holds is described by the model type [`Json`].
use vstd::prelude::*;

verus! {

/// A JSON number as serde_json stores it.
pub enum JsonNumber {
    /// A non-negative integer that fits in `u64`.
    PosInt(u64),
    /// A negative integer that fits in `i64`.
    NegInt(i64),
    /// Any other number, held as a float.
    Float,
}

/// Model of a JSON value. Strings are given by their UTF-8 bytes; object
/// members by their key's characters.
pub enum Json {
    Null,
    Bool(bool),
    Number(JsonNumber),
    Str(Seq<u8>),
    Array(Seq<Json>),
    Object(Map<Seq<char>, Json>),
}

#[verifier::external_type_specification]
#[verifier::external_body]
pub struct ExValue(serde_json::Value);

/// What a serde_json `Value` holds.
pub uninterp spec fn json_view(v: serde_json::Value) -> Json;

/// The document that serde_json reads from the given text, if the text is
/// well-formed JSON.
pub uninterp spec fn json_text(b: Seq<u8>) -> Option<Json>;

/// Relies on `serde_json::from_slice::<Value>`: the parsed document, or
/// `None` where the text is not JSON.
#[verifier::external_body]
pub(crate) fn parse_json(b: &[u8]) -> (r: Option<serde_json::Value>)
    ensures
        r is Some <==> json_text(b@) is Some,
        r matches Some(v) ==> json_view(v) == json_text(b@)->0,
{
    serde_json::from_slice(b).ok()
}

/// Relies on `serde_json::Value::get` with a string key: the member of an
/// object under that key; `None` for a missing key or a non-object.
#[verifier::external_body]
pub(crate) fn json_get<'a>(v: &'a serde_json::Value, key: &str) -> (r: Option<&'a serde_json::Value>)
    ensures
        match json_view(*v) {
            Json::Object(m) => if m.contains_key(key@) {
                r matches Some(x) && json_view(*x) == m[key@]
            } else {
                r is None
            },
            _ => r is None,
        },
{
    v.get(key)
}

/// Relies on `serde_json::Value::as_str` and `str::as_bytes`: the bytes of a
/// string value; `None` for any other value.
#[verifier::external_body]
pub(crate) fn json_str_bytes(v: &serde_json::Value) -> (r: Option<Vec<u8>>)
    ensures
        match json_view(*v) {
            Json::Str(s) => r matches Some(b) && b@ == s,
            _ => r is None,
        },
{
    v.as_str().map(|s| s.as_bytes().to_vec())
}

/// Relies on `serde_json::Value::as_array`: the elements of an array value;
/// `None` for any other value.
#[verifier::external_body]
pub(crate) fn json_as_array(v: &serde_json::Value) -> (r: Option<&Vec<serde_json::Value>>)
    ensures
        match json_view(*v) {
            Json::Array(items) => r matches Some(a) && a@.len() == items.len() && forall|i: int|
                0 <= i < items.len() ==> json_view(#[trigger] a@[i]) == items[i],
            _ => r is None,
        },
{
    v.as_array()
}

/// Relies on `serde_json::Value::as_u64`: the value of a number stored as a
/// non-negative integer; `None` for any other value.
#[verifier::external_body]
pub(crate) fn json_as_u64(v: &serde_json::Value) -> (r: Option<u64>)
    ensures
        match json_view(*v) {
            Json::Number(JsonNumber::PosInt(n)) => r == Some(n),
            _ => r is None,
        },
{
    v.as_u64()
}

} // verus!
