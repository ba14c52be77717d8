//! The two codecs. Each turns a text into a document or into its own diagnostic.
//!
//! Nothing in this file is proved: it states what is taken on trust from `serde_json`
//! and `serde_yaml`.

use vstd::prelude::*;
use crate::document::{reading_of, Reading};

verus! {

/// What `serde_json::from_str` makes of a text: the reading of the document, or the
/// diagnostic of the error in its `Debug` form.
pub uninterp spec fn json_reading(content: Seq<char>) -> Result<Reading, Seq<char>>;

/// What `serde_yaml::from_str` makes of a text: the reading of the document, or the
/// diagnostic of the error in its `Debug` form.
pub uninterp spec fn yaml_reading(content: Seq<char>) -> Result<Reading, Seq<char>>;

/// What a codec's result says in terms of readings.
pub open spec fn reading_result(r: Result<serde_json::Value, String>) -> Result<
    Reading,
    Seq<char>,
> {
    match r {
        Ok(doc) => Ok(reading_of(doc)),
        Err(detail) => Err(detail@),
    }
}

/// Calls `serde_json::from_str` for a `serde_json::Value`.
///
/// Trusted: the outcome depends on the text alone, and the `Debug` form of a
/// `serde_json::Error`, which starts with `Error(`, is never empty.
#[verifier::external_body]
pub(crate) fn read_json(content: &str) -> (r: Result<serde_json::Value, String>)
    ensures
        reading_result(r) == json_reading(content@),
        r matches Err(detail) ==> detail@.len() > 0,
{
    match serde_json::from_str::<serde_json::Value>(content) {
        Ok(doc) => Ok(doc),
        Err(e) => Err(format!("{:?}", e)),
    }
}

/// Calls `serde_yaml::from_str` for a `serde_json::Value`, so that both codecs end in
/// the same kind of document.
///
/// Trusted: the outcome depends on the text alone, and the `Debug` form of a
/// `serde_yaml::Error`, which starts with `Error`, is never empty.
#[verifier::external_body]
pub(crate) fn read_yaml(content: &str) -> (r: Result<serde_json::Value, String>)
    ensures
        reading_result(r) == yaml_reading(content@),
        r matches Err(detail) ==> detail@.len() > 0,
{
    match serde_yaml::from_str::<serde_json::Value>(content) {
        Ok(doc) => Ok(doc),
        Err(e) => Err(format!("{:?}", e)),
    }
}

} // verus!
