//! The mathematical model of a JSON value, and the field lookup that the
//! library performs on it.

use vstd::prelude::*;

verus! {

/// The shape of a JSON value, as far as this library reads one: which variant
/// a value has, the characters of a string, the elements of an array in
/// order, and the fields of an object keyed by their names. A number is
/// carried as the characters of its decimal form.
pub ghost enum JsonRep {
    Null,
    Bool(bool),
    Number(Seq<char>),
    Text(Seq<char>),
    Array(Seq<JsonRep>),
    Object(Map<Seq<char>, JsonRep>),
}

/// The field named `key` of `v`: its value when `v` is an object that has
/// such a field, and nothing when the field is missing or `v` is not an
/// object at all.
pub open spec fn field_of(v: JsonRep, key: Seq<char>) -> Option<JsonRep> {
    match v {
        JsonRep::Object(fields) => if fields.contains_key(key) {
            Some(fields[key])
        } else {
            None
        },
        _ => None,
    }
}

/// The array under `contributes.snippets` in the document `doc`: the value at
/// that path when it exists and is an array, and nothing in every other case.
pub open spec fn snippets_in(doc: JsonRep) -> Option<JsonRep> {
    match field_of(doc, "contributes"@) {
        Some(c) => match field_of(c, "snippets"@) {
            Some(sn) => if sn is Array {
                Some(sn)
            } else {
                None
            },
            None => None,
        },
        None => None,
    }
}

} // verus!
