use japanese_immersion_cli::anilist_api::{frame_search_request, search_request_body, SEARCH_QUERY};
use japanese_immersion_cli::anime_api_data::{Anime, ListType, MediaType, Title, WatchStatus};
use japanese_immersion_cli::commands::{CardsCommand, DateType, EpisodeMutation};
use japanese_immersion_cli::db::{
    add_anime_statements, add_card_mutation_statement, anime_by_name_exists_statement,
    anime_query_by_name_statement, connect_statements, current_exists_statement,
    date_mutation_checked, date_mutation_statement, episode_mutation_statement,
    query_all_statement, query_current_statement, query_list_statement, remove_current_statement,
    set_current_statement, watch_status_mutation_statement, SqlStatement, SqlValue,
};
use japanese_immersion_cli::error_ctrl::InvalidArgError;

fn text(s: &str) -> SqlValue {
    SqlValue::Text(s.to_string())
}

fn stmt(sql: &str, params: Vec<SqlValue>) -> SqlStatement {
    SqlStatement { sql: sql.to_string(), params }
}

fn api_anime() -> Anime {
    Anime {
        id: 21,
        episodes: 1000,
        title: Title {
            english: "One Piece".to_string(),
            native: "ワンピース".to_string(),
            romaji: "ONE PIECE".to_string(),
        },
        media_type: "ANIME".to_string(),
        url: "https://anilist.co/anime/21".to_string(),
        anki_flashcards: None,
        is_current: None,
        date_started: None,
        date_completed: None,
        episode_progress: None,
        watch_status: None,
        watch_sequence: None,
        date_added: None,
    }
}

const INSERT_SQL: &str = "INSERT INTO anime(id, english_name, romaji_name, native_name, date_added, total_episodes, is_current, anilist_url, watch_status, media_type) \n                 VALUES(?1, ?2, ?3, ?4, current_date, ?5, ?6, ?7, ?8, ?9 )";

#[test]
fn connect_creates_schema_only_when_missing() {
    assert!(connect_statements(true).is_empty());
    let v = connect_statements(false);
    assert_eq!(v.len(), 2);
    assert!(v[0].sql.contains("CREATE TABLE IF NOT EXISTS anime("));
    assert!(v[0].sql.contains("), STRICT"));
    assert_eq!(v[1], stmt("CREATE UNIQUE INDEX one_current ON anime(is_current) WHERE is_current=1", vec![]));
}

#[test]
fn add_anime_as_current() {
    let v = add_anime_statements(&api_anime(), WatchStatus::Watching, true);
    assert_eq!(v.len(), 3);
    assert_eq!(v[0], stmt("UPDATE anime SET is_current = false WHERE is_current = true", vec![]));
    assert_eq!(
        v[1],
        stmt(
            INSERT_SQL,
            vec![
                SqlValue::Integer(21),
                text("One Piece"),
                text("ONE PIECE"),
                text("ワンピース"),
                SqlValue::Integer(1000),
                SqlValue::Integer(1),
                text("https://anilist.co/anime/21"),
                text("Watching"),
                text("ANIME"),
            ]
        )
    );
    assert_eq!(v[2], stmt("UPDATE anime SET date_started = current_date WHERE id=?1", vec![SqlValue::Integer(21)]));
}

#[test]
fn add_anime_not_current() {
    let v = add_anime_statements(&api_anime(), WatchStatus::Planning, false);
    assert_eq!(v.len(), 1);
    assert_eq!(v[0].sql, INSERT_SQL);
    assert_eq!(v[0].params[5], SqlValue::Integer(0));
    assert_eq!(v[0].params[7], text("Planning"));
}

#[test]
fn simple_queries() {
    assert_eq!(query_current_statement(), stmt("select * from anime where is_current=1", vec![]));
    assert_eq!(current_exists_statement(), stmt("select exists( select 1 from anime where is_current=1)", vec![]));
    assert_eq!(query_all_statement(), stmt("\n        SELECT * from anime;\n        ", vec![]));
    assert_eq!(remove_current_statement(), stmt("UPDATE anime SET is_current = 0 WHERE is_current = 1;", vec![]));
}

#[test]
fn list_queries() {
    assert_eq!(query_list_statement(ListType::All, MediaType::Anime), stmt("SELECT * FROM anime", vec![]));
    assert_eq!(
        query_list_statement(ListType::Completed, MediaType::Anime),
        stmt("SELECT * FROM anime WHERE watch_status = :list_type", vec![text("Completed")])
    );
}

#[test]
fn listing_finds_added_status() {
    for (l, s) in [
        (ListType::Watching, WatchStatus::Watching),
        (ListType::Planning, WatchStatus::Planning),
        (ListType::Completed, WatchStatus::Completed),
    ] {
        let added = add_anime_statements(&api_anime(), s, false);
        let listing = query_list_statement(l, MediaType::Anime);
        assert_eq!(listing.params[0], added[0].params[7]);
    }
}

#[test]
fn queries_by_name() {
    assert_eq!(
        anime_query_by_name_statement("Naruto"),
        stmt(
            "\n        select * from anime\n        where english_name = 'Naruto' COLLATE NOCASE\n        OR romaji_name = 'Naruto' COLLATE NOCASE\n        OR native_name = 'Naruto' COLLATE NOCASE;\n        ",
            vec![]
        )
    );
    assert_eq!(
        anime_by_name_exists_statement("Naruto"),
        stmt(
            "\n        SELECT EXISTS( SELECT 1 FROM anime \n        WHERE english_name = :name COLLATE NOCASE\n        OR romaji_name = :name COLLATE NOCASE\n        OR native_name = :name COLLATE NOCASE);\n    ",
            vec![text("Naruto")]
        )
    );
}

#[test]
fn card_mutations() {
    assert_eq!(
        add_card_mutation_statement(CardsCommand::Add, 5, None),
        stmt("UPDATE anime SET anki_flashcards=COALESCE(anki_flashcards,0) + ?1 WHERE is_current=1", vec![SqlValue::Integer(5)])
    );
    assert_eq!(
        add_card_mutation_statement(CardsCommand::Total, 40, None),
        stmt("UPDATE anime SET anki_flashcards=?1 WHERE is_current=1", vec![SqlValue::Integer(40)])
    );
    let add_named = add_card_mutation_statement(CardsCommand::Add, 3, Some("Naruto"));
    assert!(add_named.sql.contains("SET anki_flashcards= COALESCE(anki_flashcards,0) + :number"));
    assert_eq!(add_named.params, vec![SqlValue::Integer(3), text("Naruto")]);
    let total_named = add_card_mutation_statement(CardsCommand::Total, 9, Some("Naruto"));
    assert!(total_named.sql.contains("SET anki_flashcards= :number\n"));
    assert_eq!(total_named.params, vec![SqlValue::Integer(9), text("Naruto")]);
}

#[test]
fn episode_mutations() {
    assert_eq!(
        episode_mutation_statement(EpisodeMutation::Add, None, None),
        stmt("UPDATE anime\nSET episode_progress = COALESCE(episode_progress,0) + 1\nWHERE is_current=1;", vec![])
    );
    assert_eq!(
        episode_mutation_statement(EpisodeMutation::Subtract, None, None),
        stmt("UPDATE anime\nSET episode_progress = COALESCE(episode_progress,0) - 1\nWHERE is_current=1;", vec![])
    );
    assert_eq!(
        episode_mutation_statement(EpisodeMutation::SetTo { number: 24 }, Some("Naruto"), Some(24)),
        stmt(
            "UPDATE anime\nSET episode_progress = 24\nWHERE english_name = 'Naruto' COLLATE NOCASE\n            OR romaji_name = 'Naruto' COLLATE NOCASE\n            OR native_name = 'Naruto' COLLATE NOCASE\n           ; ",
            vec![]
        )
    );
    assert_eq!(
        episode_mutation_statement(EpisodeMutation::SetTo { number: 3 }, None, None),
        stmt("UPDATE anime\n\nWHERE is_current=1;", vec![])
    );
    assert_eq!(
        episode_mutation_statement(EpisodeMutation::Add, None, Some(0)).sql,
        "UPDATE anime\nSET episode_progress = 0\nWHERE is_current=1;"
    );
}

#[test]
fn set_current_by_name() {
    assert_eq!(
        set_current_statement("Naruto"),
        stmt(
            "\n        UPDATE anime SET is_current = 1,\n        watch_status = 'Watching'\n        WHERE english_name = 'Naruto' COLLATE NOCASE\n        OR romaji_name = 'Naruto' COLLATE NOCASE \n        OR native_name = 'Naruto' COLLATE NOCASE;\n        ",
            vec![]
        )
    );
}

const DATE_WHERE: &str = "\n            WHERE english_name = ?1 COLLATE NOCASE\n            OR romaji_name = ?1 COLLATE NOCASE\n            OR native_name = ?1 COLLATE NOCASE;\n        ";

#[test]
fn date_mutations() {
    assert_eq!(
        date_mutation_statement("Naruto", Some("2024-01-15"), DateType::Start),
        Ok(stmt(&format!("UPDATE anime\nSET date_started = ?2\n{DATE_WHERE}"), vec![text("Naruto"), text("2024-01-15")]))
    );
    assert_eq!(
        date_mutation_statement("Naruto", None, DateType::End),
        Ok(stmt(&format!("UPDATE anime\nSET date_completed = current_date\n{DATE_WHERE}"), vec![text("Naruto")]))
    );
    assert_eq!(
        date_mutation_statement("Naruto", Some("2024-03-01"), DateType::End),
        Ok(stmt(&format!("UPDATE anime\nSET date_completed = ?2\n{DATE_WHERE}"), vec![text("Naruto"), text("2024-03-01")]))
    );
    assert_eq!(
        date_mutation_statement("Naruto", None, DateType::Start),
        Ok(stmt(&format!("UPDATE anime\nSET date_started = current_date\n{DATE_WHERE}"), vec![text("Naruto")]))
    );
}

#[test]
fn invalid_dates_are_refused() {
    assert_eq!(date_mutation_statement("Naruto", Some("2024-13-01"), DateType::Start), Err(InvalidArgError::Date));
    assert_eq!(date_mutation_statement("Naruto", Some("2023-02-29"), DateType::End), Err(InvalidArgError::Date));
    assert_eq!(date_mutation_statement("Naruto", Some("15/01/2024"), DateType::End), Err(InvalidArgError::Date));
    assert_eq!(date_mutation_statement("Naruto", Some("yesterday"), DateType::Start), Err(InvalidArgError::Date));
    assert_eq!(date_mutation_checked("Naruto", Some("x"), DateType::Start, false), Err(InvalidArgError::Date));
    assert!(date_mutation_checked("Naruto", Some("x"), DateType::Start, true).is_ok());
}

#[test]
fn watch_status_mutations() {
    assert_eq!(
        watch_status_mutation_statement(WatchStatus::Completed, None),
        stmt("UPDATE anime SET watch_status = ?1\nWHERE is_current = 1", vec![text("Completed")])
    );
    assert_eq!(
        watch_status_mutation_statement(WatchStatus::Planning, Some("Naruto")),
        stmt(
            "UPDATE anime SET watch_status = ?1\n\n            WHERE english_name = ?2 COLLATE NOCASE\n            OR romaji_name = ?2 COLLATE NOCASE\n            OR native_name = ?2 COLLATE NOCASE;\n                ",
            vec![text("Planning"), text("Naruto")]
        )
    );
}

fn expected_body(title: &str) -> String {
    let mut variables = serde_json::Map::new();
    variables.insert("search".to_string(), serde_json::Value::String(title.to_string()));
    let mut body = serde_json::Map::new();
    body.insert("query".to_string(), serde_json::Value::String(SEARCH_QUERY.to_string()));
    body.insert("variables".to_string(), serde_json::Value::Object(variables));
    serde_json::Value::Object(body).to_string()
}

#[test]
fn search_request_bodies() {
    assert_eq!(search_request_body("Naruto"), expected_body("Naruto"));
    assert_eq!(search_request_body("Say \"hi\"\\\n"), expected_body("Say \"hi\"\\\n"));
    assert!(search_request_body("Naruto").ends_with(",\"variables\":{\"search\":\"Naruto\"}}"));
    assert!(search_request_body("a\"b").ends_with("{\"search\":\"a\\\"b\"}}"));
    assert!(search_request_body("x").starts_with("{\"query\":\"\\nquery ($search: String!)"));
}

#[test]
fn search_request_framing() {
    assert_eq!(frame_search_request("\"q\"", "\"t\""), "{\"query\":\"q\",\"variables\":{\"search\":\"t\"}}");
}
