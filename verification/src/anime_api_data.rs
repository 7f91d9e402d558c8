//! The data model: an anime as the AniList API describes it and as the local
//! database stores it, its watch status, and the kinds of lists.
use vstd::prelude::*;
use crate::text::str_equal;

verus! {

/// Where the learner stands with an anime.
#[derive(Debug, Clone, Copy, PartialEq, Eq, Structural)]
pub enum WatchStatus {
    Watching,
    Completed,
    Planning,
}

impl WatchStatus {
    /// The text under which the status is shown and stored.
    pub open spec fn text(self) -> Seq<char> {
        match self {
            WatchStatus::Watching => "Watching"@,
            WatchStatus::Planning => "Planning"@,
            WatchStatus::Completed => "Completed"@,
        }
    }

    /// The status that a stored text stands for. Text that names no status
    /// reads as `Planning`.
    pub open spec fn from_text(t: Seq<char>) -> WatchStatus {
        if t == "Watching"@ {
            WatchStatus::Watching
        } else if t == "Planning"@ {
            WatchStatus::Planning
        } else if t == "Completed"@ {
            WatchStatus::Completed
        } else {
            WatchStatus::Planning
        }
    }

    /// Displays the status (`Watching`, `Planning` or `Completed`).
    pub fn to_text(&self) -> (s: String)
        ensures
            s@ == self.text(),
    {
        match self {
            WatchStatus::Watching => String::from_str("Watching"),
            WatchStatus::Planning => String::from_str("Planning"),
            WatchStatus::Completed => String::from_str("Completed"),
        }
    }

    /// Reads a status from the text of a database column.
    pub fn from_db_text(t: &str) -> (s: WatchStatus)
        ensures
            s == WatchStatus::from_text(t@),
    {
        if str_equal(t, "Watching") {
            WatchStatus::Watching
        } else if str_equal(t, "Planning") {
            WatchStatus::Planning
        } else if str_equal(t, "Completed") {
            WatchStatus::Completed
        } else {
            WatchStatus::Planning
        }
    }
}

/// Reading back the text that a status is stored under gives the status.
pub proof fn lemma_watch_status_text_round_trip(s: WatchStatus)
    ensures
        WatchStatus::from_text(s.text()) == s,
{
    reveal_strlit("Watching");
    reveal_strlit("Planning");
    reveal_strlit("Completed");
    assert("Watching"@[0] != "Planning"@[0]);
    assert("Completed"@.len() != "Watching"@.len());
    assert("Completed"@.len() != "Planning"@.len());
}

/// Two different statuses are stored under different texts.
pub proof fn lemma_watch_status_texts_distinct(s: WatchStatus, t: WatchStatus)
    requires
        s != t,
    ensures
        s.text() != t.text(),
{
    lemma_watch_status_text_round_trip(s);
    lemma_watch_status_text_round_trip(t);
}

/// The kind of media that the tracker looks up.
#[derive(Debug, Clone, Copy, PartialEq, Eq, Structural)]
pub enum MediaType {
    Anime,
}

impl MediaType {
    /// The name that the AniList API gives the media type.
    pub open spec fn text(self) -> Seq<char> {
        match self {
            MediaType::Anime => "ANIME"@,
        }
    }

    /// Displays the media type as the AniList API names it.
    pub fn to_text(&self) -> (s: String)
        ensures
            s@ == self.text(),
    {
        match self {
            MediaType::Anime => String::from_str("ANIME"),
        }
    }
}

/// Which anime a listing shows: all of them, or those of one status.
#[derive(Debug, Clone, Copy, PartialEq, Eq, Structural)]
pub enum ListType {
    All,
    Watching,
    Planning,
    Completed,
}

impl ListType {
    /// The name of the list.
    pub open spec fn text(self) -> Seq<char> {
        match self {
            ListType::All => "All"@,
            ListType::Watching => "Watching"@,
            ListType::Planning => "Planning"@,
            ListType::Completed => "Completed"@,
        }
    }

    /// The watch status that the list is made of; `None` for `All`.
    pub open spec fn status(self) -> Option<WatchStatus> {
        match self {
            ListType::All => None,
            ListType::Watching => Some(WatchStatus::Watching),
            ListType::Planning => Some(WatchStatus::Planning),
            ListType::Completed => Some(WatchStatus::Completed),
        }
    }

    /// Displays the name of the list.
    pub fn to_text(&self) -> (s: String)
        ensures
            s@ == self.text(),
    {
        match self {
            ListType::All => String::from_str("All"),
            ListType::Watching => String::from_str("Watching"),
            ListType::Planning => String::from_str("Planning"),
            ListType::Completed => String::from_str("Completed"),
        }
    }
}

/// A list of one status is named as that status is stored.
pub proof fn lemma_list_name_is_status_text(l: ListType)
    requires
        l != ListType::All,
    ensures
        l.text() == l.status().unwrap().text(),
{
}

/// The three titles of an anime.
#[derive(Debug)]
pub struct Title {
    pub english: String,
    pub native: String,
    pub romaji: String,
}

/// An anime: what the AniList API returns for it, and what the learner has
/// recorded about it (progress, flashcards, dates, status).
#[derive(Debug)]
pub struct Anime {
    pub id: u32,
    pub episodes: u16,
    pub title: Title,
    pub media_type: String,
    pub url: String,
    pub anki_flashcards: Option<u32>,
    pub is_current: Option<bool>,
    pub date_started: Option<String>,
    pub date_completed: Option<String>,
    pub episode_progress: Option<u16>,
    pub watch_status: Option<WatchStatus>,
    pub watch_sequence: Option<u32>,
    pub date_added: Option<String>,
}

/// An anime as one row of the CSV export: the titles are flattened into
/// columns of their own.
#[derive(Debug)]
pub struct AnimeForExport {
    pub id: u32,
    pub episodes: u16,
    pub english_title: String,
    pub romaji_title: String,
    pub native_title: String,
    pub media_type: String,
    pub url: String,
    pub anki_flashcards: Option<u32>,
    pub is_current: Option<bool>,
    pub date_started: Option<String>,
    pub date_completed: Option<String>,
    pub episode_progress: Option<u16>,
    pub watch_status: Option<WatchStatus>,
    pub watch_sequence: Option<u32>,
    pub date_added: Option<String>,
}

impl Anime {
    pub fn get_id(&self) -> (r: u32)
        ensures
            r == self.id,
    {
        self.id
    }

    pub fn get_episode_count(&self) -> (r: u16)
        ensures
            r == self.episodes,
    {
        self.episodes
    }

    pub fn get_media_type(&self) -> (r: &str)
        ensures
            r@ == self.media_type@,
    {
        self.media_type.as_str()
    }

    pub fn get_url(&self) -> (r: &str)
        ensures
            r@ == self.url@,
    {
        self.url.as_str()
    }

    pub fn get_english_title(&self) -> (r: &str)
        ensures
            r@ == self.title.english@,
    {
        self.title.english.as_str()
    }

    pub fn get_romaji_title(&self) -> (r: &str)
        ensures
            r@ == self.title.romaji@,
    {
        self.title.romaji.as_str()
    }

    pub fn get_native_title(&self) -> (r: &str)
        ensures
            r@ == self.title.native@,
    {
        self.title.native.as_str()
    }

    /// The row that the CSV export writes for this anime.
    pub fn into_export(self) -> (e: AnimeForExport)
        ensures
            e.id == self.id,
            e.episodes == self.episodes,
            e.english_title == self.title.english,
            e.romaji_title == self.title.romaji,
            e.native_title == self.title.native,
            e.media_type == self.media_type,
            e.url == self.url,
            e.anki_flashcards == self.anki_flashcards,
            e.is_current == self.is_current,
            e.date_started == self.date_started,
            e.date_completed == self.date_completed,
            e.episode_progress == self.episode_progress,
            e.watch_status == self.watch_status,
            e.watch_sequence == self.watch_sequence,
            e.date_added == self.date_added,
    {
        AnimeForExport {
            id: self.id,
            episodes: self.episodes,
            english_title: self.title.english,
            romaji_title: self.title.romaji,
            native_title: self.title.native,
            media_type: self.media_type,
            url: self.url,
            anki_flashcards: self.anki_flashcards,
            is_current: self.is_current,
            date_started: self.date_started,
            date_completed: self.date_completed,
            episode_progress: self.episode_progress,
            watch_status: self.watch_status,
            watch_sequence: self.watch_sequence,
            date_added: self.date_added,
        }
    }
}

} // verus!
