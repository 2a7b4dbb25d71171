//! The boundary to serde_json: the opaque document type, the names that tie
//! it to the model, and the trusted calls into the parser.

use vstd::prelude::*;
use crate::model::{field_of, JsonRep};

verus! {

#[verifier::external_type_specification]
#[verifier::external_body]
pub struct ExValue(serde_json::Value);

/// The JSON tree that a parsed document holds, as a value of the model.
pub uninterp spec fn rep_of(v: serde_json::Value) -> JsonRep;

/// What parsing a text as JSON yields: the tree of the document when the text
/// is one that the parser accepts, and nothing otherwise. Parsing depends on
/// the characters of the text alone.
pub uninterp spec fn parse_rep(s: Seq<char>) -> Option<JsonRep>;

/// Relies on serde_json::from_str: it returns Ok exactly on the texts it
/// accepts as a JSON document, and the parsed value is a function of the text
/// alone.
#[verifier::external_body]
pub(crate) fn parse_json(s: &str) -> (r: Option<serde_json::Value>)
    ensures
        r is Some <==> parse_rep(s@) is Some,
        r matches Some(v) ==> parse_rep(s@) == Some(rep_of(v)),
{
    serde_json::from_str::<serde_json::Value>(s).ok()
}

/// Relies on serde_json::Value::get with a string index: on an object it
/// looks the key up in the object's map, and on every other value it returns
/// None.
#[verifier::external_body]
pub(crate) fn get_field<'a>(v: &'a serde_json::Value, key: &str) -> (r: Option<
    &'a serde_json::Value,
>)
    ensures
        r is Some <==> field_of(rep_of(*v), key@) is Some,
        r matches Some(f) ==> field_of(rep_of(*v), key@) == Some(rep_of(*f)),
{
    v.get(key)
}

/// Relies on serde_json::Value::is_array: true exactly on the Array variant.
#[verifier::external_body]
pub(crate) fn is_array(v: &serde_json::Value) -> (r: bool)
    ensures
        r <==> rep_of(*v) is Array,
{
    v.is_array()
}

/// Relies on serde_json::Value::clone: the copy holds the same JSON tree as
/// the original.
#[verifier::external_body]
pub(crate) fn clone_value(v: &serde_json::Value) -> (r: serde_json::Value)
    ensures
        rep_of(r) == rep_of(*v),
{
    v.clone()
}

} // verus!
