//! The arguments of the commands that change an anime's record.
use vstd::prelude::*;

verus! {

/// How the episode progress of an anime changes: one up, one down, or to a
/// given episode.
#[derive(Debug, Clone, Copy, PartialEq, Eq, Structural)]
pub enum EpisodeMutation {
    Add,
    Subtract,
    SetTo { number: u16 },
}

/// How the number of Anki flashcards made from an anime changes: by adding
/// to it, or by setting the total.
#[derive(Debug, Clone, Copy, PartialEq, Eq, Structural)]
pub enum CardsCommand {
    Add,
    Total,
}

/// Which date of an anime is meant: the day it was started or the day it was
/// completed.
#[derive(Debug, Clone, Copy, PartialEq, Eq, Structural)]
pub enum DateType {
    Start,
    End,
}

} // verus!
