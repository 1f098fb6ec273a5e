//! A mathematical model of JSON documents, and the trusted interface to the
//! `serde_json` parser that the corpus loader is verified against.

use vstd::prelude::*;

verus! {

/// The model of one JSON value. A number is modelled by what
/// `serde_json::Value::as_u64` can read out of it: `Num(Some(n))` for a
/// non-negative integer that fits in `u64`, `Num(None)` for every other
/// number (negative, fractional, or too large).
pub enum Json {
    Null,
    Bool(bool),
    Num(Option<u64>),
    Str(Seq<char>),
    Arr(Seq<Json>),
    Obj(Map<Seq<char>, Json>),
}

/// The string under a key of a JSON object, if the value is an object, the
/// key is present, and the value under it is a string.
pub open spec fn obj_str(j: Json, key: Seq<char>) -> Option<Seq<char>> {
    match j {
        Json::Obj(m) => if m.dom().contains(key) {
            match m[key] {
                Json::Str(s) => Some(s),
                _ => None,
            }
        } else {
            None
        },
        _ => None,
    }
}

/// The elements under a key of a JSON object, if the value under it is an
/// array.
pub open spec fn obj_arr(j: Json, key: Seq<char>) -> Option<Seq<Json>> {
    match j {
        Json::Obj(m) => if m.dom().contains(key) {
            match m[key] {
                Json::Arr(a) => Some(a),
                _ => None,
            }
        } else {
            None
        },
        _ => None,
    }
}

/// The number under a key of a JSON object, if the value under it is a
/// number readable as `u64`.
pub open spec fn obj_num(j: Json, key: Seq<char>) -> Option<u64> {
    match j {
        Json::Obj(m) => if m.dom().contains(key) {
            match m[key] {
                Json::Num(o) => o,
                _ => None,
            }
        } else {
            None
        },
        _ => None,
    }
}

/// What `serde_json::from_str::<Value>` yields for a given input text:
/// `None` where the text is not valid JSON, otherwise the model of the
/// parsed document. The parse is a function of the text alone.
pub uninterp spec fn json_text_model(s: Seq<char>) -> Option<Json>;

/// The model of the document held by a `serde_json::Value`.
pub uninterp spec fn json_model(v: serde_json::Value) -> Json;

#[verifier::external_type_specification]
#[verifier::external_body]
pub struct ExValue(serde_json::Value);

/// Relies on `serde_json::from_str::<Value>`: parses a JSON text into a
/// `Value` tree, failing exactly on texts that are not valid JSON.
#[verifier::external_body]
pub(crate) fn parse_json(s: &str) -> (r: Option<serde_json::Value>)
    ensures
        r is Some <==> json_text_model(s@) is Some,
        r matches Some(v) ==> json_text_model(s@) == Some(json_model(v)),
{
    serde_json::from_str::<serde_json::Value>(s).ok()
}

/// A field name that a JSON-pointer lookup treats as one plain object key:
/// non-empty, no `/` or `~` (pointer separator and escape), and not shaped
/// like an array index (no leading digit or `+`).
pub open spec fn plain_key(k: Seq<char>) -> bool {
    &&& k.len() >= 1
    &&& forall|i: int| 0 <= i < k.len() ==> k[i] != '/' && k[i] != '~'
    &&& !('0' <= k[0] <= '9')
    &&& k[0] != '+'
}

/// Relies on `serde_json::Value::pointer` with a single-token pointer: on an
/// object it looks the key up, on anything else it finds nothing.
#[verifier::external_body]
pub(crate) fn json_get<'a>(v: &'a serde_json::Value, key: &str) -> (r: Option<&'a serde_json::Value>)
    requires
        plain_key(key@),
    ensures
        json_model(*v) matches Json::Obj(m) ==> {
            &&& r is Some <==> m.dom().contains(key@)
            &&& (r matches Some(x) ==> m.dom().contains(key@) && json_model(*x) == m[key@])
        },
        !(json_model(*v) is Obj) ==> r is None,
{
    v.pointer(&format!("/{}", key))
}

/// Relies on `serde_json::Value::as_str`: the string of a string value,
/// nothing for any other value.
#[verifier::external_body]
pub(crate) fn json_as_str<'a>(v: &'a serde_json::Value) -> (r: Option<&'a str>)
    ensures
        r is Some <==> json_model(*v) is Str,
        r matches Some(s) ==> json_model(*v) == Json::Str(s@),
{
    v.as_str()
}

/// Relies on `serde_json::Value::as_array`: the elements of an array value,
/// nothing for any other value.
#[verifier::external_body]
pub(crate) fn json_as_array<'a>(v: &'a serde_json::Value) -> (r: Option<&'a Vec<serde_json::Value>>)
    ensures
        r is Some <==> json_model(*v) is Arr,
        r matches Some(a) ==> json_model(*v) == Json::Arr(
            a@.map_values(|x: serde_json::Value| json_model(x)),
        ),
{
    v.as_array()
}

/// Relies on `serde_json::Value::as_u64`: reads a number value as `u64`
/// where it is a non-negative integer in range, nothing otherwise.
#[verifier::external_body]
pub(crate) fn json_as_u64(v: &serde_json::Value) -> (r: Option<u64>)
    ensures
        json_model(*v) matches Json::Num(o) ==> r == o,
        !(json_model(*v) is Num) ==> r is None,
{
    v.as_u64()
}

} // verus!
