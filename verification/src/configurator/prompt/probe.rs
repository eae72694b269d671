//! The entry of the identifiers of probes and anchors.

use crate::configurator::prompt::EntryStep;
use crate::text::chars::{trim, trimmed};
use crate::text::numbers::{parse_u32, parsed_u32};
use vstd::prelude::*;
use vstd::string::*;

verus! {

/// Whether a list holds `id`.
fn holds(ids: &Vec<u32>, id: u32) -> (found: bool)
    ensures
        found == ids@.contains(id),
{
    let mut i: usize = 0;
    while i < ids.len()
        invariant
            0 <= i <= ids.len(),
            forall|k: int| 0 <= k < i ==> ids@[k] != id,
        decreases ids.len() - i,
    {
        if ids[i] == id {
            return true;
        }
        i = i + 1;
    }
    false
}

/// What one answer does to the list of identifiers entered so far.
///
/// White space around the answer does not count. A blank answer ends the
/// entry. An answer that is no number of 32 bits is invalid, and one that
/// the list holds already is a duplicate; both leave the list as it is. Any
/// other answer is added to the end of the list.
pub open spec fn entry_step(ids: Seq<u32>, input: Seq<char>) -> EntryStep {
    let answer = trimmed(input);
    if answer.len() == 0 {
        EntryStep::Finished
    } else {
        match parsed_u32(answer) {
            None => EntryStep::Invalid,
            Some(id) => if ids.contains(id) {
                EntryStep::Duplicate
            } else {
                EntryStep::Added
            },
        }
    }
}

/// Takes one answer into the list of identifiers entered so far.
pub fn enter_id(ids: &mut Vec<u32>, input: &str) -> (step: EntryStep)
    ensures
        step == entry_step(old(ids)@, input@),
        step == EntryStep::Added ==> final(ids)@ == old(ids)@.push(
            parsed_u32(trimmed(input@))->0,
        ),
        step != EntryStep::Added ==> final(ids)@ == old(ids)@,
        old(ids)@.no_duplicates() ==> final(ids)@.no_duplicates(),
{
    let answer = trim(input);
    if answer.unicode_len() == 0 {
        return EntryStep::Finished;
    }
    let id: u32 = match parse_u32(answer) {
        Some(num) => num,
        None => {
            return EntryStep::Invalid;
        },
    };
    if holds(ids, id) {
        return EntryStep::Duplicate;
    }
    ids.push(id);
    EntryStep::Added
}

} // verus!
