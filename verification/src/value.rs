use vstd::prelude::*;
use crate::model::{JsonV, obj_field};

verus! {

#[verifier::external_type_specification]
#[verifier::external_body]
pub struct ExValue(serde_json::Value);

/// The JSON tree that a `serde_json::Value` holds, as this library models
/// it: strings, `i64` integers, arrays and objects; anything else is
/// `JsonV::Other`.
pub uninterp spec fn jmodel(v: serde_json::Value) -> JsonV;

/// What `serde_json::from_str::<Value>` parses a given text to: `None`
/// where it refuses the text.
pub uninterp spec fn parsed_json(s: Seq<char>) -> Option<JsonV>;

/// Relies on serde_json::from_str: it parses the whole text as one JSON
/// document, or fails; whether it parses, and to what, is a function of
/// the text alone.
#[verifier::external_body]
pub(crate) fn parse_json(s: &str) -> (r: Option<serde_json::Value>)
    ensures
        r matches Some(v) ==> parsed_json(s@) == Some(jmodel(v)),
        r is None <==> parsed_json(s@) is None,
{
    serde_json::from_str::<serde_json::Value>(s).ok()
}

/// Relies on serde_json::Value::get: `Some` exactly where the value is an
/// object with that key, and then the value stored under the key.
#[verifier::external_body]
pub(crate) fn value_get<'a>(v: &'a serde_json::Value, key: &str) -> (r: Option<
    &'a serde_json::Value,
>)
    ensures
        r matches Some(w) ==> obj_field(jmodel(*v), key@) == Some(jmodel(*w)),
        r is None <==> obj_field(jmodel(*v), key@) is None,
{
    v.get(key)
}

/// Relies on serde_json::Value::as_str: `Some` exactly on JSON strings,
/// and then the characters of the string.
#[verifier::external_body]
pub(crate) fn value_as_str<'a>(v: &'a serde_json::Value) -> (r: Option<&'a str>)
    ensures
        r matches Some(s) ==> jmodel(*v) == JsonV::Str(s@),
        r is None <==> !(jmodel(*v) is Str),
{
    v.as_str()
}

/// Relies on serde_json::Value::as_i64: `Some` exactly on JSON numbers
/// that are integers representable in `i64`.
#[verifier::external_body]
pub(crate) fn value_as_i64(v: &serde_json::Value) -> (r: Option<i64>)
    ensures
        r matches Some(n) ==> jmodel(*v) == JsonV::Int(n),
        r is None <==> !(jmodel(*v) is Int),
{
    v.as_i64()
}

/// Relies on serde_json::Value::as_array: `Some` exactly on JSON arrays,
/// and then the elements in their original order.
#[verifier::external_body]
pub(crate) fn value_as_array<'a>(v: &'a serde_json::Value) -> (r: Option<
    &'a Vec<serde_json::Value>,
>)
    ensures
        r is Some <==> jmodel(*v) is Arr,
        r matches Some(a) ==> a@.len() == jmodel(*v)->Arr_0.len(),
        r matches Some(a) ==> forall|i: int|
            0 <= i < a@.len() ==> jmodel(#[trigger] a@[i]) == jmodel(*v)->Arr_0[i],
{
    v.as_array()
}

/// Relies on serde_json::Value's Clone: the copy holds the same JSON tree.
#[verifier::external_body]
pub(crate) fn value_clone(v: &serde_json::Value) -> (r: serde_json::Value)
    ensures
        jmodel(r) == jmodel(*v),
{
    v.clone()
}

/// Relies on str's PartialEq: character-for-character equality of the two
/// strings.
#[verifier::external_body]
pub(crate) fn str_eq(a: &str, b: &str) -> (r: bool)
    ensures
        r == (a@ == b@),
{
    a == b
}

} // verus!
