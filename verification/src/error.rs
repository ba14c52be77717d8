//! The failures of the decoder: one per codec, and the two of them together.

use vstd::prelude::*;
use vstd::string::*;
use crate::sniff::FormatGuess;

verus! {

/// The failure of one codec, with the diagnostic as the codec or the shape check
/// worded it.
#[derive(Debug, PartialEq, Eq)]
pub enum DecodeError {
    JsonDecodeFailure(String),
    YamlDecodeFailure(String),
}

/// A failure as contracts speak of it: the codec that failed and what it reported.
pub ghost struct Failure {
    pub codec: FormatGuess,
    pub detail: Seq<char>,
}

impl View for DecodeError {
    type V = Failure;

    open spec fn view(&self) -> Failure {
        match self {
            DecodeError::JsonDecodeFailure(detail) => Failure {
                codec: FormatGuess::Json,
                detail: detail@,
            },
            DecodeError::YamlDecodeFailure(detail) => Failure {
                codec: FormatGuess::Yaml,
                detail: detail@,
            },
        }
    }
}

impl Clone for DecodeError {
    fn clone(&self) -> (r: Self)
        ensures
            r == *self,
    {
        match self {
            DecodeError::JsonDecodeFailure(detail) => DecodeError::JsonDecodeFailure(detail.clone()),
            DecodeError::YamlDecodeFailure(detail) => DecodeError::YamlDecodeFailure(detail.clone()),
        }
    }
}

impl DecodeError {
    /// The failure of `codec` with the diagnostic `detail`.
    pub fn new(codec: FormatGuess, detail: String) -> (e: DecodeError)
        ensures
            e@ == (Failure { codec, detail: detail@ }),
    {
        match codec {
            FormatGuess::Json => DecodeError::JsonDecodeFailure(detail),
            FormatGuess::Yaml => DecodeError::YamlDecodeFailure(detail),
        }
    }

    /// The codec that failed.
    pub fn codec(&self) -> (c: FormatGuess)
        ensures
            c == self@.codec,
    {
        match self {
            DecodeError::JsonDecodeFailure(_) => FormatGuess::Json,
            DecodeError::YamlDecodeFailure(_) => FormatGuess::Yaml,
        }
    }

    /// What the codec reported.
    pub fn detail(&self) -> (d: &str)
        ensures
            d@ == self@.detail,
    {
        match self {
            DecodeError::JsonDecodeFailure(detail) => detail.as_str(),
            DecodeError::YamlDecodeFailure(detail) => detail.as_str(),
        }
    }
}

/// The failure of both codecs: what each reported, in the order in which they were
/// tried, and which of them was tried first.
#[derive(Debug, PartialEq, Eq)]
pub struct AggregatedError {
    pub first: DecodeError,
    pub second: DecodeError,
    pub order: FormatGuess,
}

/// An aggregated failure as contracts speak of it.
pub ghost struct Aggregate {
    pub first: Failure,
    pub second: Failure,
    pub order: FormatGuess,
}

impl View for AggregatedError {
    type V = Aggregate;

    open spec fn view(&self) -> Aggregate {
        Aggregate { first: self.first@, second: self.second@, order: self.order }
    }
}

/// The words that introduce a codec's diagnostic in a message.
pub open spec fn label(codec: FormatGuess) -> Seq<char> {
    match codec {
        FormatGuess::Json => "JSON parse failed: "@,
        FormatGuess::Yaml => "YAML parse failed: "@,
    }
}

/// The message of an aggregated failure: both diagnostics in full, each behind the
/// name of its codec, the one that was tried first in front.
pub open spec fn message_of(a: Aggregate) -> Seq<char> {
    label(a.first.codec) + a.first.detail + ", "@ + label(a.second.codec) + a.second.detail
}

/// Combines the two failures of a decode into one error. Nothing is dropped or
/// reworded: the error holds the three arguments as they are.
pub fn aggregate(first: DecodeError, second: DecodeError, order: FormatGuess) -> (e:
    AggregatedError)
    ensures
        e == (AggregatedError { first, second, order }),
{
    AggregatedError { first, second, order }
}

/// The words that introduce the diagnostic of `codec`.
fn label_text(codec: FormatGuess) -> (s: &'static str)
    ensures
        s@ == label(codec),
{
    match codec {
        FormatGuess::Json => "JSON parse failed: ",
        FormatGuess::Yaml => "YAML parse failed: ",
    }
}

impl AggregatedError {
    /// The error as one line of text.
    pub fn message(&self) -> (m: String)
        ensures
            m@ == message_of(self@),
    {
        let mut m = String::from_str(label_text(self.first.codec()));
        m.append(self.first.detail());
        m.append(", ");
        m.append(label_text(self.second.codec()));
        m.append(self.second.detail());
        m
    }
}

} // verus!
