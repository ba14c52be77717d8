//! The parsed document, a `serde_json::Value`, as far as the decoder looks into it.
//!
//! Nothing in this file is proved: it states what is taken on trust from `serde_json`.

use vstd::prelude::*;

verus! {

/// `serde_json::Value`, carried through as a value that Verus cannot look into.
#[verifier::external_type_specification]
#[verifier::external_body]
pub struct ExValue(serde_json::Value);

/// The strings of a document, each under the JSON Pointer that leads to it.
pub uninterp spec fn texts(doc: serde_json::Value) -> Map<Seq<char>, Seq<char>>;

/// The JSON Pointers of a document that lead to an object.
pub uninterp spec fn objects(doc: serde_json::Value) -> Set<Seq<char>>;

/// What the decoder can know of a document: its strings and where its objects are.
pub ghost struct Reading {
    pub texts: Map<Seq<char>, Seq<char>>,
    pub objects: Set<Seq<char>>,
}

/// The reading of a document.
pub open spec fn reading_of(doc: serde_json::Value) -> Reading {
    Reading { texts: texts(doc), objects: objects(doc) }
}

/// Calls `serde_json::Value::pointer` and hands out a copy of the string found.
///
/// Trusted: the result is `Some` exactly where the pointer leads to a value of the
/// variant `String`, which is what `texts` names, and then holds that string.
#[verifier::external_body]
pub(crate) fn text_at(doc: &serde_json::Value, pointer: &str) -> (r: Option<String>)
    ensures
        r is Some <==> texts(*doc).contains_key(pointer@),
        r matches Some(t) ==> t@ == texts(*doc)[pointer@],
{
    match doc.pointer(pointer) {
        Some(serde_json::Value::String(t)) => Some(t.clone()),
        _ => None,
    }
}

/// Calls `serde_json::Value::pointer` and tells whether an object was found.
///
/// Trusted: the result is `true` exactly where the pointer leads to a value of the
/// variant `Object`, which is what `objects` names.
#[verifier::external_body]
pub(crate) fn object_at(doc: &serde_json::Value, pointer: &str) -> (r: bool)
    ensures
        r == objects(*doc).contains(pointer@),
{
    match doc.pointer(pointer) {
        Some(serde_json::Value::Object(_)) => true,
        _ => false,
    }
}

} // verus!
