//! The errors that end a command, each with the message shown for it.
use vstd::prelude::*;

verus! {

/// A reason to refuse what the learner asked for.
#[derive(Debug, Clone, Copy, PartialEq, Eq, Structural)]
pub enum InvalidArgError {
    Current,
    InvalidName,
    Date,
    InvalidEpisodeCount,
    InvalidPath,
    InvalidChoice,
    InvalidAnime,
}

impl InvalidArgError {
    /// The message printed (to standard error) before the program exits.
    pub open spec fn message_text(self) -> Seq<char> {
        match self {
            InvalidArgError::Current => "No anime is set as current. Set one anime as current before using"@,
            InvalidArgError::InvalidName => "Anime not in db. Check if name is correct"@,
            InvalidArgError::Date => "Invalid Date Error: Use format YYYY-MM-DD"@,
            InvalidArgError::InvalidEpisodeCount => "Error: Invalid episode count"@,
            InvalidArgError::InvalidPath => "Error: Path doesn't exist"@,
            InvalidArgError::InvalidChoice => "Error: Invalid Choice"@,
            InvalidArgError::InvalidAnime => "Error: No such anime found"@,
        }
    }

    /// The message for this error.
    pub fn message(&self) -> (m: &'static str)
        ensures
            m@ == self.message_text(),
    {
        match self {
            InvalidArgError::Current => "No anime is set as current. Set one anime as current before using",
            InvalidArgError::InvalidName => "Anime not in db. Check if name is correct",
            InvalidArgError::Date => "Invalid Date Error: Use format YYYY-MM-DD",
            InvalidArgError::InvalidEpisodeCount => "Error: Invalid episode count",
            InvalidArgError::InvalidPath => "Error: Path doesn't exist",
            InvalidArgError::InvalidChoice => "Error: Invalid Choice",
            InvalidArgError::InvalidAnime => "Error: No such anime found",
        }
    }
}

} // verus!
