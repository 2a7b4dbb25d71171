//! Looks up the `contributes.snippets` field of a JSON document and hands the
//! array found there back to the caller, or nothing when the document is not
//! valid JSON, the path is missing, or the value at the path is not an array.

pub mod json;
pub mod model;

use vstd::prelude::*;

use crate::json::{clone_value, get_field, is_array, parse_json, parse_rep, rep_of};
use crate::model::{field_of, snippets_in, JsonRep};

verus! {

/// The array under `contributes.snippets` of the document that the text `s`
/// parses to: nothing when `s` is not valid JSON, when the path is missing,
/// or when the value at the path is not an array.
pub open spec fn snippets_array(s: Seq<char>) -> Option<JsonRep> {
    match parse_rep(s) {
        Some(doc) => snippets_in(doc),
        None => None,
    }
}

/// The value under `contributes.snippets` of an already parsed document, when
/// it exists and is an array.
pub fn snippets_of<'a>(doc: &'a serde_json::Value) -> (r: Option<&'a serde_json::Value>)
    ensures
        r is Some <==> snippets_in(rep_of(*doc)) is Some,
        r matches Some(v) ==> snippets_in(rep_of(*doc)) == Some(rep_of(*v)),
{
    match get_field(doc, "contributes") {
        Some(c) => match get_field(c, "snippets") {
            Some(sn) => if is_array(sn) {
                Some(sn)
            } else {
                None
            },
            None => None,
        },
        None => None,
    }
}

/// Parses `json_input` and returns the array under `contributes.snippets`,
/// or nothing when the input is not valid JSON, the path is missing, or the
/// value at the path is not an array. Never fails, whatever the input.
pub fn extract_snippets(json_input: &str) -> (r: Option<serde_json::Value>)
    ensures
        r is Some <==> snippets_array(json_input@) is Some,
        r matches Some(v) ==> snippets_array(json_input@) == Some(rep_of(v)),
{
    match parse_json(json_input) {
        Some(doc) => match snippets_of(&doc) {
            Some(arr) => Some(clone_value(arr)),
            None => None,
        },
        None => None,
    }
}

/// A text that the parser does not accept yields no snippets.
pub proof fn lemma_invalid_json_absent(s: Seq<char>)
    requires
        parse_rep(s) is None,
    ensures
        snippets_array(s) is None,
{
}

/// A document without a `contributes` field — because the field is missing or
/// because the document is not an object — yields no snippets.
pub proof fn lemma_no_contributes_absent(s: Seq<char>, doc: JsonRep)
    requires
        parse_rep(s) == Some(doc),
        field_of(doc, "contributes"@) is None,
    ensures
        snippets_array(s) is None,
{
}

/// A document whose `contributes` value has no `snippets` field yields no
/// snippets.
pub proof fn lemma_no_snippets_field_absent(s: Seq<char>, doc: JsonRep, c: JsonRep)
    requires
        parse_rep(s) == Some(doc),
        field_of(doc, "contributes"@) == Some(c),
        field_of(c, "snippets"@) is None,
    ensures
        snippets_array(s) is None,
{
}

/// A `contributes.snippets` value that is not an array yields no snippets.
pub proof fn lemma_snippets_not_array_absent(s: Seq<char>, doc: JsonRep, c: JsonRep, sn: JsonRep)
    requires
        parse_rep(s) == Some(doc),
        field_of(doc, "contributes"@) == Some(c),
        field_of(c, "snippets"@) == Some(sn),
        sn !is Array,
    ensures
        snippets_array(s) is None,
{
}

/// A `contributes.snippets` value that is an array — the empty one included —
/// is yielded exactly as it stands: the same elements in the same order.
pub proof fn lemma_snippets_array_yielded(s: Seq<char>, doc: JsonRep, c: JsonRep, items: Seq<
    JsonRep,
>)
    requires
        parse_rep(s) == Some(doc),
        field_of(doc, "contributes"@) == Some(c),
        field_of(c, "snippets"@) == Some(JsonRep::Array(items)),
    ensures
        snippets_array(s) == Some(JsonRep::Array(items)),
{
}

} // verus!
