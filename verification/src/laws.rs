//! What holds of the decoder on every text, stated over the functions that its
//! contracts use and proved from their definitions.

use vstd::prelude::*;
use crate::decode::{attempt_of, decode_of, ordered_decode_of};
use crate::error::{label, message_of, Aggregate};
use crate::schema::SpecView;
use crate::sniff::{guess_of, sniff_of, FormatGuess};
use crate::trace::{trace_of, EventView};

verus! {

/// A decode ends in exactly one of two ways: with a document, which it does exactly
/// if at least one codec accepts the text, or with the aggregated failure, which it
/// does exactly if both codecs fail.
pub proof fn law_one_outcome(s: Seq<char>)
    ensures
        (decode_of(s) is Ok) != (decode_of(s) is Err),
        decode_of(s) is Ok <==> attempt_of(FormatGuess::Json, s) is Ok || attempt_of(
            FormatGuess::Yaml,
            s,
        ) is Ok,
        decode_of(s) is Err <==> attempt_of(FormatGuess::Json, s) is Err && attempt_of(
            FormatGuess::Yaml,
            s,
        ) is Err,
{
}

/// A text that the JSON codec accepts decodes whichever codec is tried first, and so
/// whatever the sniffer guesses; with JSON first the document is the JSON codec's.
pub proof fn law_json_decodes_in_any_order(s: Seq<char>, order: FormatGuess)
    requires
        attempt_of(FormatGuess::Json, s) is Ok,
    ensures
        ordered_decode_of(order, s) is Ok,
        decode_of(s) is Ok,
        ordered_decode_of(FormatGuess::Json, s) == Ok::<SpecView, Aggregate>(
            attempt_of(FormatGuess::Json, s)->Ok_0,
        ),
{
}

/// A text that the YAML codec accepts and the JSON codec does not decodes to the YAML
/// codec's document, also where JSON is tried first: the fallback finds it.
pub proof fn law_yaml_fallback(s: Seq<char>, order: FormatGuess)
    requires
        attempt_of(FormatGuess::Yaml, s) is Ok,
        attempt_of(FormatGuess::Json, s) is Err,
    ensures
        ordered_decode_of(order, s) == Ok::<SpecView, Aggregate>(attempt_of(FormatGuess::Yaml, s)->Ok_0),
        decode_of(s) == Ok::<SpecView, Aggregate>(attempt_of(FormatGuess::Yaml, s)->Ok_0),
{
}

/// A text that neither codec accepts fails with both failures in the order of the
/// attempts: the first is the guessed codec's, the second the other codec's, so the
/// two can be told apart, and the order recorded is the guess.
pub proof fn law_both_failures_kept(s: Seq<char>)
    requires
        attempt_of(FormatGuess::Json, s) is Err,
        attempt_of(FormatGuess::Yaml, s) is Err,
    ensures
        decode_of(s) == Err::<SpecView, Aggregate>(
            Aggregate {
                first: attempt_of(guess_of(s), s)->Err_0,
                second: attempt_of(guess_of(s).other_of(), s)->Err_0,
                order: guess_of(s),
            },
        ),
        decode_of(s)->Err_0.first.codec == guess_of(s),
        decode_of(s)->Err_0.second.codec == guess_of(s).other_of(),
        decode_of(s)->Err_0.first.codec != decode_of(s)->Err_0.second.codec,
{
}

/// A decode that fails has tried both codecs, whatever the guess was: its record is
/// the sniffing, the guessed codec and its failure, the other codec and its failure.
pub proof fn law_failure_follows_both_attempts(s: Seq<char>)
    requires
        decode_of(s) is Err,
    ensures
        trace_of(s) == seq![
            EventView::Sniffed(sniff_of(s)),
            EventView::Attempting(guess_of(s)),
            EventView::Failed(decode_of(s)->Err_0.first),
            EventView::Attempting(guess_of(s).other_of()),
            EventView::Failed(decode_of(s)->Err_0.second),
        ],
        trace_of(s).contains(EventView::Attempting(FormatGuess::Json)),
        trace_of(s).contains(EventView::Attempting(FormatGuess::Yaml)),
{
    let t = trace_of(s);
    let expected = seq![
        EventView::Sniffed(sniff_of(s)),
        EventView::Attempting(guess_of(s)),
        EventView::Failed(decode_of(s)->Err_0.first),
        EventView::Attempting(guess_of(s).other_of()),
        EventView::Failed(decode_of(s)->Err_0.second),
    ];
    assert(t =~= expected);
    assert(t[1] == EventView::Attempting(guess_of(s)));
    assert(t[3] == EventView::Attempting(guess_of(s).other_of()));
}

/// Where the first codec accepts the text, the second one never runs: the record ends
/// with the success of the guessed codec.
pub proof fn law_first_success_ends_decode(s: Seq<char>)
    requires
        attempt_of(guess_of(s), s) is Ok,
    ensures
        decode_of(s) == Ok::<SpecView, Aggregate>(attempt_of(guess_of(s), s)->Ok_0),
        trace_of(s) == seq![
            EventView::Sniffed(sniff_of(s)),
            EventView::Attempting(guess_of(s)),
            EventView::Succeeded(guess_of(s)),
        ],
{
    assert(trace_of(s) =~= seq![
        EventView::Sniffed(sniff_of(s)),
        EventView::Attempting(guess_of(s)),
        EventView::Succeeded(guess_of(s)),
    ]);
}

/// The message of an aggregated failure holds both diagnostics in full, the first
/// behind the label of its codec and the second behind the comma and its own label.
pub proof fn law_message_keeps_details(a: Aggregate)
    ensures
        message_of(a).subrange(
            label(a.first.codec).len() as int,
            (label(a.first.codec).len() + a.first.detail.len()) as int,
        ) == a.first.detail,
        message_of(a).subrange(
            message_of(a).len() - a.second.detail.len(),
            message_of(a).len() as int,
        ) == a.second.detail,
        message_of(a).subrange(0, label(a.first.codec).len() as int) == label(a.first.codec),
{
    let m = message_of(a);
    let l1 = label(a.first.codec);
    assert(m.subrange(l1.len() as int, (l1.len() + a.first.detail.len()) as int) =~= a.first.detail);
    assert(m.subrange(m.len() - a.second.detail.len(), m.len() as int) =~= a.second.detail);
    assert(m.subrange(0, l1.len() as int) =~= l1);
}

} // verus!
