//! What is shown of an anime: the pieces of its line, and the detail that
//! each command adds to it. Colouring and layout are left to the caller.
use vstd::prelude::*;
use crate::anime_api_data::{Anime, WatchStatus};
use crate::commands::DateType;
use crate::text::{decimal_digits, decimal_text};

verus! {

/// Which detail follows the line of an anime.
#[derive(Debug, Clone, Copy, PartialEq, Eq, Structural)]
pub enum PrintStyle {
    Current,
    StartDate,
    EndDate,
    Anki,
    WatchStatus,
}

impl PrintStyle {
    /// The style that shows the date a command has just set.
    pub fn for_date(date_type: DateType) -> (s: PrintStyle)
        ensures
            s == match date_type {
                DateType::Start => PrintStyle::StartDate,
                DateType::End => PrintStyle::EndDate,
            },
    {
        match date_type {
            DateType::Start => PrintStyle::StartDate,
            DateType::End => PrintStyle::EndDate,
        }
    }
}

/// The pieces of the line that shows an anime: `{id}. {name}  {progress}/{episodes}`,
/// and, for some styles, ` | {detail} `.
#[derive(Debug)]
pub struct PrintFields {
    pub id: String,
    pub name: String,
    pub progress: String,
    pub episodes: String,
    pub detail: Option<String>,
}

/// A date, or `None` when it is not recorded.
pub open spec fn date_or_none(d: Option<String>) -> Seq<char> {
    match d {
        Some(s) => s@,
        None => "None"@,
    }
}

/// The detail that a style adds: no detail for `Current`; the start or the
/// completion date (`None` when missing); the number of flashcards (0 when
/// missing); the watch status (`Planning` when missing).
pub open spec fn detail_text(a: Anime, style: PrintStyle) -> Option<Seq<char>> {
    match style {
        PrintStyle::Current => None,
        PrintStyle::StartDate => Some(date_or_none(a.date_started)),
        PrintStyle::EndDate => Some(date_or_none(a.date_completed)),
        PrintStyle::Anki => Some(decimal_digits(
            match a.anki_flashcards {
                Some(n) => n as nat,
                None => 0,
            },
        )),
        PrintStyle::WatchStatus => Some(
            match a.watch_status {
                Some(s) => s,
                None => WatchStatus::Planning,
            }.text(),
        ),
    }
}

fn date_or_none_text(d: &Option<String>) -> (s: String)
    ensures
        s@ == date_or_none(*d),
{
    match d {
        Some(s) => s.clone(),
        None => String::from_str("None"),
    }
}

/// The pieces of the line that shows `anime` in the given style: its id, its
/// English title, its progress (0 when missing), its number of episodes and
/// the detail of the style.
pub fn print_fields(anime: &Anime, style: PrintStyle) -> (f: PrintFields)
    ensures
        f.id@ == decimal_digits(anime.id as nat),
        f.name@ == anime.title.english@,
        f.progress@ == decimal_digits(
            match anime.episode_progress {
                Some(p) => p as nat,
                None => 0,
            },
        ),
        f.episodes@ == decimal_digits(anime.episodes as nat),
        match f.detail {
            Some(d) => detail_text(*anime, style) == Some(d@),
            None => detail_text(*anime, style) is None,
        },
{
    let progress = anime.episode_progress.unwrap_or(0);
    let detail = match style {
        PrintStyle::Current => None,
        PrintStyle::StartDate => Some(date_or_none_text(&anime.date_started)),
        PrintStyle::EndDate => Some(date_or_none_text(&anime.date_completed)),
        PrintStyle::Anki => Some(decimal_text(anime.anki_flashcards.unwrap_or(0) as u64)),
        PrintStyle::WatchStatus => Some(anime.watch_status.unwrap_or(WatchStatus::Planning).to_text()),
    };
    PrintFields {
        id: decimal_text(anime.id as u64),
        name: anime.title.english.clone(),
        progress: decimal_text(progress as u64),
        episodes: decimal_text(anime.episodes as u64),
        detail,
    }
}

} // verus!
