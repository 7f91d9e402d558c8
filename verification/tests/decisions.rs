use japanese_immersion_cli::anime_api_data::{Anime, ListType, Title, WatchStatus};
use japanese_immersion_cli::commands::{DateType, EpisodeMutation};
use japanese_immersion_cli::db::{
    anime_by_name_exists_statement, anime_query_by_name_statement, current_exists_statement,
    date_mutation_checked, date_mutation_statement, date_validity, episode_mutation_statement, query_current_statement,
    remove_current_statement, set_current_statement, watch_status_mutation_statement,
};
use japanese_immersion_cli::error_ctrl::InvalidArgError;
use japanese_immersion_cli::operations::{
    answers_yes, choice_index, completion_tail, completion_tail_checked, completion_updates, episode_update_decision,
    is_finished, list_empty_message, override_question, search_results_check, set_current_plan, verify_name_exists,
    wants_current, watch_status_menu, watch_status_update, EpisodeStep, MenuChoice,
};
use japanese_immersion_cli::output::{print_fields, PrintStyle};
use japanese_immersion_cli::utils::{exists_statement, home_relative_path, lookup_statement};

fn anime(episodes: u16, progress: Option<u16>) -> Anime {
    Anime {
        id: 7,
        episodes,
        title: Title { english: "Frieren".to_string(), native: "葬送のフリーレン".to_string(), romaji: "Sousou no Frieren".to_string() },
        media_type: "ANIME".to_string(),
        url: "https://anilist.co/anime/154587".to_string(),
        anki_flashcards: None,
        is_current: Some(false),
        date_started: None,
        date_completed: Some("2024-03-22".to_string()),
        episode_progress: progress,
        watch_status: None,
        watch_sequence: None,
        date_added: None,
    }
}

#[test]
fn lookups() {
    assert_eq!(exists_statement(Some("Frieren")), anime_by_name_exists_statement("Frieren"));
    assert_eq!(exists_statement(None), current_exists_statement());
    assert_eq!(lookup_statement(Some("Frieren"), true), Ok(anime_query_by_name_statement("Frieren")));
    assert_eq!(lookup_statement(Some("Frieren"), false), Err(InvalidArgError::InvalidName));
    assert_eq!(lookup_statement(None, true), Ok(query_current_statement()));
    assert_eq!(lookup_statement(None, false), Err(InvalidArgError::Current));
}

#[test]
fn home_relative_paths() {
    assert_eq!(home_relative_path("~/Documents/exports"), Some("Documents/exports".to_string()));
    assert_eq!(home_relative_path("~/~/x"), Some("x".to_string()));
    assert_eq!(home_relative_path("~/"), Some(String::new()));
    assert_eq!(home_relative_path("~"), Some("~".to_string()));
    assert_eq!(home_relative_path("/tmp/out"), None);
    assert_eq!(home_relative_path("~user/x"), None);
    assert_eq!(home_relative_path("./~/x"), None);
    assert_eq!(home_relative_path(""), None);
}

#[test]
fn adding_choices() {
    assert_eq!(search_results_check(0), Err(InvalidArgError::InvalidAnime));
    assert_eq!(search_results_check(3), Ok(()));
    assert_eq!(choice_index(3, 1), Ok(0));
    assert_eq!(choice_index(3, 3), Ok(2));
    assert_eq!(choice_index(3, 4), Err(InvalidArgError::InvalidChoice));
    assert_eq!(choice_index(3, 0), Err(InvalidArgError::InvalidChoice));
}

#[test]
fn watch_status_menu_answers() {
    assert_eq!(watch_status_menu(1), MenuChoice::Status(WatchStatus::Watching));
    assert_eq!(watch_status_menu(2), MenuChoice::Status(WatchStatus::Planning));
    assert_eq!(watch_status_menu(3), MenuChoice::Status(WatchStatus::Completed));
    assert_eq!(watch_status_menu(4), MenuChoice::Quit);
    assert_eq!(watch_status_menu(0), MenuChoice::Retry);
    assert_eq!(watch_status_menu(9), MenuChoice::Retry);
}

#[test]
fn yes_answers() {
    assert!(answers_yes("y"));
    assert!(answers_yes("Y"));
    assert!(!answers_yes("y\n"));
    assert!(!answers_yes("yes"));
    assert!(!answers_yes(""));
    assert!(wants_current(WatchStatus::Watching, "Y"));
    assert!(!wants_current(WatchStatus::Planning, "y"));
    assert!(!wants_current(WatchStatus::Watching, "n"));
}

#[test]
fn empty_list_messages() {
    assert_eq!(list_empty_message(ListType::Planning), "No Planning anime in database ");
    assert_eq!(list_empty_message(ListType::All), "No All anime in database ");
}

#[test]
fn named_anime_must_exist() {
    assert_eq!(verify_name_exists(Some("x"), false), Err(InvalidArgError::InvalidName));
    assert_eq!(verify_name_exists(Some("x"), true), Ok(()));
    assert_eq!(verify_name_exists(None, false), Ok(()));
}

#[test]
fn episode_decisions() {
    assert!(is_finished(&anime(12, Some(12))));
    assert!(!is_finished(&anime(12, Some(11))));
    assert_eq!(episode_update_decision(EpisodeMutation::Add, &anime(12, Some(3))), Ok(EpisodeStep::Apply));
    assert_eq!(episode_update_decision(EpisodeMutation::Subtract, &anime(12, Some(12))), Ok(EpisodeStep::AlreadyCompleted));
    assert_eq!(episode_update_decision(EpisodeMutation::SetTo { number: 13 }, &anime(12, None)), Err(InvalidArgError::InvalidEpisodeCount));
    assert_eq!(episode_update_decision(EpisodeMutation::SetTo { number: 12 }, &anime(12, None)), Ok(EpisodeStep::Checked));
}

#[test]
fn set_current_plans() {
    let start = date_mutation_statement("Frieren", None, DateType::Start).unwrap();
    let p = set_current_plan("Frieren", Some(7), 7, WatchStatus::Planning);
    assert!(p.already_current);
    assert_eq!(p.statements, vec![start]);
    let p = set_current_plan("Frieren", Some(7), 7, WatchStatus::Watching);
    assert!(p.already_current);
    assert!(p.statements.is_empty());
    let p = set_current_plan("Frieren", Some(3), 7, WatchStatus::Completed);
    assert!(!p.already_current);
    assert_eq!(p.statements, vec![remove_current_statement(), set_current_statement("Frieren")]);
    let p = set_current_plan("Frieren", None, 7, WatchStatus::Planning);
    assert!(!p.already_current);
    assert_eq!(
        p.statements,
        vec![set_current_statement("Frieren"), date_mutation_statement("Frieren", None, DateType::Start).unwrap()]
    );
}

#[test]
fn watch_status_updates() {
    assert_eq!(watch_status_update(None, WatchStatus::Planning, WatchStatus::Planning), None);
    assert_eq!(
        watch_status_update(Some("Frieren"), WatchStatus::Planning, WatchStatus::Watching),
        Some(watch_status_mutation_statement(WatchStatus::Watching, Some("Frieren")))
    );
}

#[test]
fn completion_plans() {
    assert_eq!(completion_updates(None, WatchStatus::Completed, 28), None);
    assert_eq!(
        completion_updates(Some("Frieren"), WatchStatus::Watching, 28),
        Some(vec![
            episode_mutation_statement(EpisodeMutation::SetTo { number: 28 }, Some("Frieren"), Some(28)),
            watch_status_mutation_statement(WatchStatus::Completed, Some("Frieren")),
        ])
    );
    assert_eq!(
        completion_tail("Frieren", None, false, "", true),
        vec![date_mutation_statement("Frieren", None, DateType::End), Ok(remove_current_statement())]
    );
    assert_eq!(completion_tail("Frieren", None, true, "n\n", false), vec![]);
    assert_eq!(completion_tail("Frieren", None, true, "y\n", false), vec![]);
    assert_eq!(
        completion_tail("Frieren", Some("2024-02-30"), true, "Y", true),
        vec![Err(InvalidArgError::Date), Ok(remove_current_statement())]
    );
}

#[test]
fn print_fields_by_style() {
    let mut a = anime(28, None);
    let f = print_fields(&a, PrintStyle::Current);
    assert_eq!((f.id.as_str(), f.name.as_str(), f.progress.as_str(), f.episodes.as_str()), ("7", "Frieren", "0", "28"));
    assert_eq!(f.detail, None);
    assert_eq!(print_fields(&a, PrintStyle::StartDate).detail.as_deref(), Some("None"));
    assert_eq!(print_fields(&a, PrintStyle::EndDate).detail.as_deref(), Some("2024-03-22"));
    assert_eq!(print_fields(&a, PrintStyle::Anki).detail.as_deref(), Some("0"));
    assert_eq!(print_fields(&a, PrintStyle::WatchStatus).detail.as_deref(), Some("Planning"));
    a.anki_flashcards = Some(250);
    a.watch_status = Some(WatchStatus::Completed);
    a.episode_progress = Some(5);
    assert_eq!(print_fields(&a, PrintStyle::Anki).detail.as_deref(), Some("250"));
    assert_eq!(print_fields(&a, PrintStyle::WatchStatus).detail.as_deref(), Some("Completed"));
    assert_eq!(print_fields(&a, PrintStyle::Current).progress, "5");
    assert_eq!(PrintStyle::for_date(DateType::Start), PrintStyle::StartDate);
    assert_eq!(PrintStyle::for_date(DateType::End), PrintStyle::EndDate);
}

#[test]
fn completion_tail_with_given_validity() {
    assert_eq!(
        completion_tail_checked("Frieren", Some("whenever"), true, false, "", false),
        vec![date_mutation_checked("Frieren", Some("whenever"), DateType::End, true)]
    );
    assert_eq!(
        completion_tail_checked("Frieren", Some("2024-01-01"), false, false, "", true),
        vec![Err(InvalidArgError::Date), Ok(remove_current_statement())]
    );
    assert_eq!(completion_tail_checked("Frieren", None, true, true, "N", true), vec![Ok(remove_current_statement())]);
}

#[test]
fn date_arguments() {
    assert!(date_validity(None));
    assert!(date_validity(Some("2024-02-29")));
    assert!(!date_validity(Some("2023-02-29")));
    assert!(!date_validity(Some("2024-1-1x")));
    assert!(!date_validity(Some("")));
}

#[test]
fn override_questions() {
    assert_eq!(
        override_question(&Some("2024-03-22".to_string())),
        Some("Anime was completed on 2024-03-22. Do you want to override(y/N)".to_string())
    );
    assert_eq!(override_question(&None), None);
}
