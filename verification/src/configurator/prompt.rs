//! The questions of the configurator, one module per subject, and the
//! checks on answers that are given as free text.

pub mod general;
pub mod http;
pub mod probe;
pub mod topology;
pub mod traceroute;

use crate::text::chars::{trim, trimmed};
use crate::text::numbers::{all_ascii_digits, only_ascii_digits, parse_u32, parsed_u32};
use vstd::prelude::*;
use vstd::string::*;

verus! {

/// Why an answer given as text was not accepted.
#[derive(Debug, Clone, Copy, PartialEq, Eq, Structural)]
pub enum AnswerError {
    /// The text is no identifier of a probe or an anchor.
    InvalidProbeId,
    /// The text is no interval in seconds.
    InvalidInterval,
}

impl AnswerError {
    /// A sentence that asks for a better answer.
    pub fn message(&self) -> (text: &'static str)
        ensures
            text@ == match *self {
                AnswerError::InvalidProbeId => "Please enter a valid probe/anchor id."@,
                AnswerError::InvalidInterval => "Please enter a valid positive integer"@,
            },
    {
        match self {
            AnswerError::InvalidProbeId => "Please enter a valid probe/anchor id.",
            AnswerError::InvalidInterval => "Please enter a valid positive integer",
        }
    }
}

/// Accepts the text of an identifier: digits alone, with white space around
/// them or nothing but white space, which ends the entry.
pub fn validate_probe_id(input: &String) -> (outcome: Result<(), AnswerError>)
    ensures
        outcome is Ok <==> all_ascii_digits(trimmed(input@)),
        outcome is Err ==> outcome == Err::<(), AnswerError>(AnswerError::InvalidProbeId),
{
    let inner = trim(input.as_str());
    if only_ascii_digits(inner) {
        Ok(())
    } else {
        Err(AnswerError::InvalidProbeId)
    }
}

/// Accepts the text of an interval: a number that fits in 32 bits.
pub fn validate_interval(input: &String) -> (outcome: Result<(), AnswerError>)
    ensures
        outcome is Ok <==> parsed_u32(input@) is Some,
        outcome is Err ==> outcome == Err::<(), AnswerError>(AnswerError::InvalidInterval),
{
    match parse_u32(input.as_str()) {
        Some(_) => Ok(()),
        None => Err(AnswerError::InvalidInterval),
    }
}

/// What became of one answer during the entry of a list.
#[derive(Debug, Clone, Copy, PartialEq, Eq, Structural)]
pub enum EntryStep {
    /// The answer was blank: the list is complete.
    Finished,
    /// The answer is no identifier. It was left out.
    Invalid,
    /// The answer is in the list already. It was left out.
    Duplicate,
    /// The answer was added to the end of the list.
    Added,
}

/// Whether a list of texts holds `text`.
fn holds_text(list: &Vec<String>, text: &String) -> (found: bool)
    ensures
        found == list.deep_view().contains(text@),
{
    let mut i: usize = 0;
    while i < list.len()
        invariant
            0 <= i <= list.len(),
            forall|k: int| 0 <= k < i ==> (#[trigger] list.deep_view()[k]) != text@,
        decreases list.len() - i,
    {
        if list[i] == *text {
            assert(list.deep_view()[i as int] == text@);
            return true;
        }
        i = i + 1;
    }
    false
}

/// Takes one answer into a list of identifiers that are kept as text.
///
/// A blank answer ends the entry. An answer that the list holds already is
/// left out. Any other answer is added as it was given.
pub fn enter_probe_id(probes: &mut Vec<String>, id: String) -> (step: EntryStep)
    ensures
        step == if trimmed(id@).len() == 0 {
            EntryStep::Finished
        } else if old(probes).deep_view().contains(id@) {
            EntryStep::Duplicate
        } else {
            EntryStep::Added
        },
        step == EntryStep::Added ==> final(probes).deep_view() == old(probes).deep_view().push(id@),
        step != EntryStep::Added ==> final(probes)@ == old(probes)@,
        old(probes).deep_view().no_duplicates() ==> final(probes).deep_view().no_duplicates(),
{
    let blank = trim(id.as_str()).unicode_len() == 0;
    if blank {
        return EntryStep::Finished;
    }
    if holds_text(probes, &id) {
        return EntryStep::Duplicate;
    }
    let ghost before = probes.deep_view();
    probes.push(id);
    assert(probes.deep_view() =~= before.push(id@));
    EntryStep::Added
}

} // verus!
