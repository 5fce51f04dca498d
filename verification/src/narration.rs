//! The narration entries the engine appends to a caller-supplied log.
//!
//! Contracts speak of a log as the sequence of character views of its
//! entries, so that callers know exactly which lines a cycle appended.

use vstd::prelude::*;
use vstd::string::StringExecFns;
use crate::decimal::spec_decimal;
use crate::demand::OutcomeTier;

verus! {

/// The character sequences of the log entries.
pub open spec fn log_views(s: Seq<String>) -> Seq<Seq<char>> {
    s.map_values(|x: String| x@)
}

/// Appending an entry to the log appends its characters to the views.
pub proof fn lemma_log_views_push(s: Seq<String>, x: String)
    ensures
        log_views(s.push(x)) =~= log_views(s).push(x@),
{
}

/// Append one fixed narration line to the log.
pub(crate) fn push_entry(log: &mut Vec<String>, entry: &str)
    ensures
        log_views(final(log)@) == log_views(old(log)@).push(entry@),
{
    let m = String::from_str(entry);
    proof {
        lemma_log_views_push(log@, m);
    }
    log.push(m);
}

/// Append one built narration line to the log.
pub(crate) fn push_string(log: &mut Vec<String>, entry: String)
    ensures
        log_views(final(log)@) == log_views(old(log)@).push(entry@),
{
    proof {
        lemma_log_views_push(log@, entry);
    }
    log.push(entry);
}

/// The narration a research outcome appends: nothing for a roll with no
/// effect, otherwise one line on quality and demand and one on costs.
pub open spec fn research_messages(t: OutcomeTier) -> Seq<Seq<char>> {
    match t {
        OutcomeTier::NoEffect => Seq::empty(),
        OutcomeTier::Slight => seq![
            "Research & Development leads to a slight increase in product quality, raising demand."@,
            "Research also leads to a small cut in production costs."@,
        ],
        OutcomeTier::Fair => seq![
            "Research & Development leads to a fair increase in product quality, raising demand."@,
            "Research also leads to a decent cut in production costs."@,
        ],
        OutcomeTier::Exceptional => seq![
            "Research & Development leads to an exceptional increase in product quality, raising demand greatly."@,
            "Research also greatly cuts production costs."@,
        ],
    }
}

/// The narration a marketing outcome appends: nothing for a roll with no
/// effect, otherwise one line on consumer demand.
pub open spec fn marketing_messages(t: OutcomeTier) -> Seq<Seq<char>> {
    match t {
        OutcomeTier::NoEffect => Seq::empty(),
        OutcomeTier::Slight => seq!["Marketing leads to a slight increase in consumer demand."@],
        OutcomeTier::Fair => seq!["Marketing leads to a fair increase in consumer demand."@],
        OutcomeTier::Exceptional => seq!["Marketing leads to a boom in consumer demand."@],
    }
}

/// The narration a settled sale appends, reporting the revenue earned.
pub open spec fn revenue_message(amount: nat) -> Seq<char> {
    "+$"@ + spec_decimal(amount) + " made!"@
}

} // verus!
