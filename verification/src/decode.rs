//! The dual-format decoder: the guessed codec first, the other one second, and both
//! diagnostics together where neither accepts the text.

use vstd::prelude::*;
use crate::codec::{json_reading, read_json, read_yaml, reading_result, yaml_reading};
use crate::document::{reading_of, Reading};
use crate::error::{aggregate, Aggregate, AggregatedError, DecodeError, Failure};
use crate::schema::{
    first_gap, lemma_gap_text_not_empty, match_schema, spec_of, ParsedSpec, SpecView,
};
use crate::sniff::{guess, guess_of, FormatGuess};

verus! {

/// The result of one attempt as contracts speak of it.
pub open spec fn attempt_view(r: Result<ParsedSpec, DecodeError>) -> Result<SpecView, Failure> {
    match r {
        Ok(spec) => Ok(spec@),
        Err(e) => Err(e@),
    }
}

/// The result of a decode as contracts speak of it.
pub open spec fn outcome_view(r: Result<ParsedSpec, AggregatedError>) -> Result<
    SpecView,
    Aggregate,
> {
    match r {
        Ok(spec) => Ok(spec@),
        Err(e) => Err(e@),
    }
}

/// What an attempt with `codec` comes to, given what the codec made of the text: the
/// codec's own diagnostic where it refused the text, the first gap where the document
/// lacks the shape, and else the parsed document.
pub open spec fn settled(codec: FormatGuess, read: Result<Reading, Seq<char>>) -> Result<
    SpecView,
    Failure,
> {
    match read {
        Err(detail) => Err(Failure { codec, detail }),
        Ok(reading) => match first_gap(reading) {
            Some(gap) => Err(Failure { codec, detail: gap.text() }),
            None => Ok(spec_of(reading)),
        },
    }
}

/// What `codec` makes of the text `s`.
pub open spec fn codec_reading(codec: FormatGuess, s: Seq<char>) -> Result<Reading, Seq<char>> {
    match codec {
        FormatGuess::Json => json_reading(s),
        FormatGuess::Yaml => yaml_reading(s),
    }
}

/// What an attempt with `codec` on the text `s` comes to.
pub open spec fn attempt_of(codec: FormatGuess, s: Seq<char>) -> Result<SpecView, Failure> {
    settled(codec, codec_reading(codec, s))
}

/// What decoding `s` comes to when `order` is tried first: the first attempt that
/// succeeds, or else both failures, the first one in front.
pub open spec fn ordered_decode_of(order: FormatGuess, s: Seq<char>) -> Result<
    SpecView,
    Aggregate,
> {
    match attempt_of(order, s) {
        Ok(spec) => Ok(spec),
        Err(first) => match attempt_of(order.other_of(), s) {
            Ok(spec) => Ok(spec),
            Err(second) => Err(Aggregate { first, second, order }),
        },
    }
}

/// What decoding `s` comes to: the codecs in the order that the sniffer's guess gives.
pub open spec fn decode_of(s: Seq<char>) -> Result<SpecView, Aggregate> {
    ordered_decode_of(guess_of(s), s)
}

/// Finishes an attempt with `codec` on what the codec returned: its diagnostic is
/// kept word for word, and a document is held against the shape.
pub fn settle(codec: FormatGuess, read: Result<serde_json::Value, String>) -> (r: Result<
    ParsedSpec,
    DecodeError,
>)
    ensures
        attempt_view(r) == settled(codec, reading_result(read)),
        r matches Ok(spec) ==> read == Ok::<serde_json::Value, String>(spec.document),
{
    match read {
        Err(detail) => Err(DecodeError::new(codec, detail)),
        Ok(document) => match match_schema(document) {
            Ok(spec) => Ok(spec),
            Err(gap) => Err(DecodeError::new(codec, gap.describe())),
        },
    }
}

/// One attempt: `codec` reads the text, and what it returns is settled.
pub fn attempt(codec: FormatGuess, content: &str) -> (r: Result<ParsedSpec, DecodeError>)
    ensures
        attempt_view(r) == attempt_of(codec, content@),
        r matches Err(e) ==> e@.detail.len() > 0,
{
    let read = match codec {
        FormatGuess::Json => read_json(content),
        FormatGuess::Yaml => read_yaml(content),
    };
    proof {
        if read is Ok && first_gap(reading_of(read->Ok_0)) is Some {
            lemma_gap_text_not_empty(first_gap(reading_of(read->Ok_0))->0);
        }
    }
    settle(codec, read)
}

/// Decodes `content` with `order` tried first. The other codec runs only where the
/// first one fails, and nothing is reported as failed before both have run.
pub fn decode_in_order(order: FormatGuess, content: &str) -> (r: Result<
    ParsedSpec,
    AggregatedError,
>)
    ensures
        outcome_view(r) == ordered_decode_of(order, content@),
        r matches Err(e) ==> e@.first.detail.len() > 0 && e@.second.detail.len() > 0,
{
    match attempt(order, content) {
        Ok(spec) => Ok(spec),
        Err(first) => match attempt(order.other(), content) {
            Ok(spec) => Ok(spec),
            Err(second) => Err(aggregate(first, second, order)),
        },
    }
}

/// Decodes a text that claims to be an OpenAPI 3.0 document, in JSON or in YAML: the
/// codec that the sniffer guesses first, then the other one.
pub fn parse_openapi_content(content: &str) -> (r: Result<ParsedSpec, AggregatedError>)
    ensures
        outcome_view(r) == decode_of(content@),
        r matches Err(e) ==> e@.first.detail.len() > 0 && e@.second.detail.len() > 0,
{
    decode_in_order(guess(content), content)
}

} // verus!
