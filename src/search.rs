//! Looking for one named entry: advance until a yielded name equals the target
//! exactly, or the archive ends.
use vstd::prelude::*;

use crate::reader::{Advance, ArchiveState, ARCHIVE_EOF, ARCHIVE_OK};

verus! {

/// What a search does after one advance of the reader.
#[derive(Clone, Copy, Debug, PartialEq, Eq, Structural)]
pub enum SearchStep {
    /// The entry yielded is not the target: advance again.
    Continue,
    /// The entry yielded is the target, and its data can now be read.
    Found,
    /// The archive ended without the target.
    Missing,
    /// The engine reported an unrecoverable fault.
    Fatal,
}

/// The search step for an advance outcome.
pub open spec fn search_step_spec(outcome: Advance, target: Seq<char>) -> SearchStep {
    match outcome {
        Advance::Entry(name) => if name@ == target {
            SearchStep::Found
        } else {
            SearchStep::Continue
        },
        Advance::End => SearchStep::Missing,
        Advance::Fatal => SearchStep::Fatal,
    }
}

/// The search step taken when a reader in state `s` gets the engine's answer
/// `code`, with an entry named `name`.
pub open spec fn search_decision(
    s: ArchiveState,
    code: i32,
    name: Seq<char>,
    target: Seq<char>,
) -> SearchStep {
    if s == ArchiveState::Eof {
        SearchStep::Missing
    } else if code == ARCHIVE_OK {
        if name == target {
            SearchStep::Found
        } else {
            SearchStep::Continue
        }
    } else if code == ARCHIVE_EOF {
        SearchStep::Missing
    } else {
        SearchStep::Fatal
    }
}

/// Decides what a search for the entry named `target` does after the reader
/// advanced with `outcome`. Names are compared exactly.
pub fn search_step(outcome: &Advance, target: &String) -> (r: SearchStep)
    ensures
        r == search_step_spec(*outcome, target@),
{
    match outcome {
        Advance::Entry(name) => if name.eq(target) {
            SearchStep::Found
        } else {
            SearchStep::Continue
        },
        Advance::End => SearchStep::Missing,
        Advance::Fatal => SearchStep::Fatal,
    }
}

} // verus!
