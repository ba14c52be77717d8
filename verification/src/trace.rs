//! The decoder with a record of its decisions, for an observer to print or to log.

use vstd::prelude::*;
use crate::decode::{attempt, attempt_of, decode_of, outcome_view};
use crate::error::{aggregate, AggregatedError, DecodeError, Failure};
use crate::schema::ParsedSpec;
use crate::sniff::{guess_of, sniff, sniff_of, FormatGuess, Sniff};

verus! {

/// One decision of the decoder.
#[derive(Debug, PartialEq, Eq)]
pub enum DecodeEvent {
    /// The sniffer has read its signals off the text.
    Sniffed(Sniff),
    /// A codec is about to run.
    Attempting(FormatGuess),
    /// The codec that ran last accepted the text.
    Succeeded(FormatGuess),
    /// The codec that ran last failed, with this diagnostic.
    Failed(DecodeError),
}

/// An event as contracts speak of it.
pub ghost enum EventView {
    Sniffed(Sniff),
    Attempting(FormatGuess),
    Succeeded(FormatGuess),
    Failed(Failure),
}

impl View for DecodeEvent {
    type V = EventView;

    open spec fn view(&self) -> EventView {
        match self {
            DecodeEvent::Sniffed(s) => EventView::Sniffed(*s),
            DecodeEvent::Attempting(codec) => EventView::Attempting(*codec),
            DecodeEvent::Succeeded(codec) => EventView::Succeeded(*codec),
            DecodeEvent::Failed(e) => EventView::Failed(e@),
        }
    }
}

/// A decode and the decisions that led to its outcome, in the order they were made.
#[derive(Debug, PartialEq, Eq)]
pub struct DecodeReport {
    pub outcome: Result<ParsedSpec, AggregatedError>,
    pub events: Vec<DecodeEvent>,
}

/// The events of a record as contracts speak of them.
pub open spec fn events_view(events: Seq<DecodeEvent>) -> Seq<EventView> {
    events.map_values(|e: DecodeEvent| e@)
}

/// The decisions that decoding `s` takes: the sniffing, then each codec that runs with
/// how it ended. The second codec appears only behind a failure of the first.
pub open spec fn trace_of(s: Seq<char>) -> Seq<EventView> {
    let order = guess_of(s);
    let other = order.other_of();
    let start = seq![EventView::Sniffed(sniff_of(s)), EventView::Attempting(order)];
    match attempt_of(order, s) {
        Ok(_) => start.push(EventView::Succeeded(order)),
        Err(first) => {
            let retry = start.push(EventView::Failed(first)).push(EventView::Attempting(other));
            match attempt_of(other, s) {
                Ok(_) => retry.push(EventView::Succeeded(other)),
                Err(second) => retry.push(EventView::Failed(second)),
            }
        },
    }
}

/// Decodes as `parse_openapi_content` does, and records each decision on the way.
pub fn parse_openapi_content_debug(content: &str) -> (report: DecodeReport)
    ensures
        outcome_view(report.outcome) == decode_of(content@),
        events_view(report.events@) == trace_of(content@),
        report.outcome matches Err(e) ==> e@.first.detail.len() > 0 && e@.second.detail.len() > 0,
{
    let signals = sniff(content);
    let order = if signals.likely_json {
        FormatGuess::Json
    } else {
        FormatGuess::Yaml
    };
    let other = order.other();
    let mut events: Vec<DecodeEvent> = Vec::new();
    events.push(DecodeEvent::Sniffed(signals));
    events.push(DecodeEvent::Attempting(order));
    let outcome = match attempt(order, content) {
        Ok(spec) => {
            events.push(DecodeEvent::Succeeded(order));
            Ok(spec)
        },
        Err(first) => {
            events.push(DecodeEvent::Failed(first.clone()));
            events.push(DecodeEvent::Attempting(other));
            match attempt(other, content) {
                Ok(spec) => {
                    events.push(DecodeEvent::Succeeded(other));
                    Ok(spec)
                },
                Err(second) => {
                    events.push(DecodeEvent::Failed(second.clone()));
                    Err(aggregate(first, second, order))
                },
            }
        },
    };
    assert(events_view(events@) =~= trace_of(content@));
    DecodeReport { outcome, events }
}

} // verus!
