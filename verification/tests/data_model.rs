use japanese_immersion_cli::anime_api_data::{Anime, ListType, MediaType, Title, WatchStatus};
use japanese_immersion_cli::error_ctrl::InvalidArgError;
use japanese_immersion_cli::text::{decimal_text, str_equal};

fn sample_anime() -> Anime {
    Anime {
        id: 20,
        episodes: 220,
        title: Title {
            english: "Naruto".to_string(),
            native: "ナルト".to_string(),
            romaji: "NARUTO".to_string(),
        },
        media_type: "ANIME".to_string(),
        url: "https://anilist.co/anime/20".to_string(),
        anki_flashcards: Some(15),
        is_current: Some(true),
        date_started: Some("2024-01-02".to_string()),
        date_completed: None,
        episode_progress: Some(12),
        watch_status: Some(WatchStatus::Watching),
        watch_sequence: None,
        date_added: Some("2024-01-01".to_string()),
    }
}

#[test]
fn watch_status_texts() {
    assert_eq!(WatchStatus::Watching.to_text(), "Watching");
    assert_eq!(WatchStatus::Planning.to_text(), "Planning");
    assert_eq!(WatchStatus::Completed.to_text(), "Completed");
}

#[test]
fn watch_status_text_round_trip() {
    for s in [WatchStatus::Watching, WatchStatus::Planning, WatchStatus::Completed] {
        assert_eq!(WatchStatus::from_db_text(&s.to_text()), s);
    }
}

#[test]
fn unknown_watch_status_text_reads_as_planning() {
    assert_eq!(WatchStatus::from_db_text("Dropped"), WatchStatus::Planning);
    assert_eq!(WatchStatus::from_db_text("watching"), WatchStatus::Planning);
    assert_eq!(WatchStatus::from_db_text(""), WatchStatus::Planning);
}

#[test]
fn list_and_media_type_texts() {
    assert_eq!(ListType::All.to_text(), "All");
    assert_eq!(ListType::Watching.to_text(), "Watching");
    assert_eq!(ListType::Planning.to_text(), "Planning");
    assert_eq!(ListType::Completed.to_text(), "Completed");
    assert_eq!(MediaType::Anime.to_text(), "ANIME");
}

#[test]
fn anime_getters() {
    let a = sample_anime();
    assert_eq!(a.get_id(), 20);
    assert_eq!(a.get_episode_count(), 220);
    assert_eq!(a.get_media_type(), "ANIME");
    assert_eq!(a.get_url(), "https://anilist.co/anime/20");
    assert_eq!(a.get_english_title(), "Naruto");
    assert_eq!(a.get_romaji_title(), "NARUTO");
    assert_eq!(a.get_native_title(), "ナルト");
}

#[test]
fn export_row_keeps_every_field() {
    let e = sample_anime().into_export();
    assert_eq!(e.id, 20);
    assert_eq!(e.episodes, 220);
    assert_eq!(e.english_title, "Naruto");
    assert_eq!(e.romaji_title, "NARUTO");
    assert_eq!(e.native_title, "ナルト");
    assert_eq!(e.media_type, "ANIME");
    assert_eq!(e.url, "https://anilist.co/anime/20");
    assert_eq!(e.anki_flashcards, Some(15));
    assert_eq!(e.is_current, Some(true));
    assert_eq!(e.date_started.as_deref(), Some("2024-01-02"));
    assert_eq!(e.date_completed, None);
    assert_eq!(e.episode_progress, Some(12));
    assert_eq!(e.watch_status, Some(WatchStatus::Watching));
    assert_eq!(e.watch_sequence, None);
    assert_eq!(e.date_added.as_deref(), Some("2024-01-01"));
}

#[test]
fn decimal_rendering() {
    assert_eq!(decimal_text(0), "0");
    assert_eq!(decimal_text(7), "7");
    assert_eq!(decimal_text(10), "10");
    assert_eq!(decimal_text(1234), "1234");
    assert_eq!(decimal_text(u64::MAX), u64::MAX.to_string());
}

#[test]
fn string_equality() {
    assert!(str_equal("abc", "abc"));
    assert!(!str_equal("abc", "abd"));
    assert!(!str_equal("abc", "ab"));
    assert!(str_equal("", ""));
    assert!(str_equal("ナルト", "ナルト"));
}

#[test]
fn error_messages() {
    assert_eq!(InvalidArgError::Current.message(), "No anime is set as current. Set one anime as current before using");
    assert_eq!(InvalidArgError::InvalidName.message(), "Anime not in db. Check if name is correct");
    assert_eq!(InvalidArgError::Date.message(), "Invalid Date Error: Use format YYYY-MM-DD");
    assert_eq!(InvalidArgError::InvalidEpisodeCount.message(), "Error: Invalid episode count");
    assert_eq!(InvalidArgError::InvalidPath.message(), "Error: Path doesn't exist");
    assert_eq!(InvalidArgError::InvalidChoice.message(), "Error: Invalid Choice");
    assert_eq!(InvalidArgError::InvalidAnime.message(), "Error: No such anime found");
}
