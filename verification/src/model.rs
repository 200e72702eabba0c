use vstd::prelude::*;

verus! {

/// The mathematical model of one JSON value, as far as this library reads
/// JSON: strings, integers that fit in `i64`, arrays, and objects. Every
/// other kind of value (null, booleans, numbers outside `i64`) is opaque to
/// the logic and collapses to `Other`.
pub enum JsonV {
    Str(Seq<char>),
    Int(i64),
    Arr(Seq<JsonV>),
    Obj(Map<Seq<char>, JsonV>),
    Other,
}

/// The value under `key`, if `j` is an object that has that key.
pub open spec fn obj_field(j: JsonV, key: Seq<char>) -> Option<JsonV> {
    match j {
        JsonV::Obj(m) => if m.dom().contains(key) {
            Some(m[key])
        } else {
            None
        },
        _ => None,
    }
}

/// A string field of an object, degraded to the placeholder `"-"` when the
/// field is absent or is not a string.
pub open spec fn str_field(j: JsonV, key: Seq<char>) -> Seq<char> {
    match obj_field(j, key) {
        Some(JsonV::Str(s)) => s,
        _ => "-"@,
    }
}

/// An integer field of an object, degraded to `0` when the field is absent
/// or is not an integer.
pub open spec fn int_field(j: JsonV, key: Seq<char>) -> i64 {
    match obj_field(j, key) {
        Some(JsonV::Int(n)) => n,
        _ => 0,
    }
}

/// Does `a` (an `affectedPageType` value) carry `type == "list"`?
pub open spec fn has_list_type(a: JsonV) -> bool {
    obj_field(a, "type"@) == Some(JsonV::Str("list"@))
}

/// Does `a` (an `affectedPageType` value) carry a `value` array that
/// contains the string `"PDP"`?
pub open spec fn has_pdp_value(a: JsonV) -> bool {
    match obj_field(a, "value"@) {
        Some(JsonV::Arr(elts)) => elts.contains(JsonV::Str("PDP"@)),
        _ => false,
    }
}

/// The retention predicate: the item is an object whose `affectedPageType`
/// field is an object whose `type` field is exactly `"list"` and whose
/// `value` field is an array containing the exact string `"PDP"`.
/// Anything else — a non-object item, a missing key, a wrong type — is
/// rejected, never an error.
pub open spec fn matches_item(j: JsonV) -> bool {
    match obj_field(j, "affectedPageType"@) {
        Some(a) => has_list_type(a) && has_pdp_value(a),
        None => false,
    }
}

/// The retention predicate as a first-class function, so that every
/// contract filters by one and the same predicate value.
pub open spec fn matches_pred() -> spec_fn(JsonV) -> bool {
    |j: JsonV| matches_item(j)
}

} // verus!
