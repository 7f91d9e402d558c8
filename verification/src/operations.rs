//! The decisions that the tracker's commands take between reading from the
//! database (or from the learner) and writing to it.
use vstd::prelude::*;
use crate::anime_api_data::{Anime, ListType, WatchStatus};
use crate::commands::{DateType, EpisodeMutation};
use crate::db::{
    bare, date_argument_valid, date_mutation_checked, date_mutation_view, date_validity,
    episode_mutation_statement, episode_mutation_view, opt_text, remove_current_sql,
    remove_current_statement, set_current_statement, set_current_view, statements_view, step_view,
    watch_status_mutation_statement, watch_status_mutation_view, SqlStatement, StatementView,
};
use crate::error_ctrl::InvalidArgError;
use crate::text::str_equal;

verus! {

// ---------------------------------------------------------------- adding

/// A search that found nothing is refused with `InvalidAnime`.
pub fn search_results_check(count: usize) -> (r: Result<(), InvalidArgError>)
    ensures
        r == if count == 0 { Err(InvalidArgError::InvalidAnime) } else { Ok(()) },
{
    if count == 0 {
        Err(InvalidArgError::InvalidAnime)
    } else {
        Ok(())
    }
}

/// The position in the search results of the learner's choice, which counts
/// from 1. A choice outside the results is refused with `InvalidChoice`.
pub fn choice_index(count: usize, choice: usize) -> (r: Result<usize, InvalidArgError>)
    ensures
        r == if 1 <= choice <= count { Ok((choice - 1) as usize) } else { Err(InvalidArgError::InvalidChoice) },
{
    if 1 <= choice && choice <= count {
        Ok(choice - 1)
    } else {
        Err(InvalidArgError::InvalidChoice)
    }
}

/// What an answer to the watch-status menu asks for.
#[derive(Debug, Clone, Copy, PartialEq, Eq, Structural)]
pub enum MenuChoice {
    Status(WatchStatus),
    Quit,
    Retry,
}

/// The watch-status menu: 1 Watching, 2 Planning, 3 Completed, 4 quit; any
/// other number asks again.
pub fn watch_status_menu(input: u8) -> (c: MenuChoice)
    ensures
        c == if input == 1 {
            MenuChoice::Status(WatchStatus::Watching)
        } else if input == 2 {
            MenuChoice::Status(WatchStatus::Planning)
        } else if input == 3 {
            MenuChoice::Status(WatchStatus::Completed)
        } else if input == 4 {
            MenuChoice::Quit
        } else {
            MenuChoice::Retry
        },
{
    match input {
        1 => MenuChoice::Status(WatchStatus::Watching),
        2 => MenuChoice::Status(WatchStatus::Planning),
        3 => MenuChoice::Status(WatchStatus::Completed),
        4 => MenuChoice::Quit,
        _ => MenuChoice::Retry,
    }
}

/// Whether an answer, as read (line ending included), says yes: its
/// lowercase form is exactly `y`.
pub open spec fn is_yes(answer: Seq<char>) -> bool {
    answer == "y"@ || answer == "Y"@
}

/// Whether the learner answered yes to a (y/N) question.
pub fn answers_yes(answer: &str) -> (r: bool)
    ensures
        r == is_yes(answer@),
{
    str_equal(answer, "y") || str_equal(answer, "Y")
}

/// Whether an anime being added becomes the current one: only an anime
/// added as `Watching`, and only when the learner says yes.
pub fn wants_current(watch_status: WatchStatus, answer: &str) -> (r: bool)
    ensures
        r == (watch_status == WatchStatus::Watching && is_yes(answer@)),
{
    match watch_status {
        WatchStatus::Watching => answers_yes(answer),
        _ => false,
    }
}

// ---------------------------------------------------------------- listing

/// The message of an empty listing.
pub fn list_empty_message(list_type: ListType) -> (m: String)
    ensures
        m@ == "No "@ + list_type.text() + " anime in database "@,
{
    let mut m = String::from_str("No ");
    let t = list_type.to_text();
    m.append(t.as_str());
    m.append(" anime in database ");
    m
}

/// A named anime must exist before a command works on it.
pub fn verify_name_exists(name: Option<&str>, found: bool) -> (r: Result<(), InvalidArgError>)
    ensures
        r == (if name is Some && !found { Err(InvalidArgError::InvalidName) } else { Ok(()) }),
{
    match name {
        Some(_) => if found {
            Ok(())
        } else {
            Err(InvalidArgError::InvalidName)
        },
        None => Ok(()),
    }
}

// ---------------------------------------------------------------- episodes

/// An anime is finished when its progress has reached its number of
/// episodes.
pub open spec fn finished(a: Anime) -> bool {
    a.episode_progress == Some(a.episodes)
}

/// Whether an anime whose progress is recorded is finished.
pub fn is_finished(anime: &Anime) -> (r: bool)
    requires
        anime.episode_progress is Some,
    ensures
        r == finished(*anime),
{
    match anime.episode_progress {
        Some(p) => anime.episodes == p,
        None => false,
    }
}

/// What an episode command does with the progress it has read.
#[derive(Debug, Clone, Copy, PartialEq, Eq, Structural)]
pub enum EpisodeStep {
    /// Run the change.
    Apply,
    /// The anime is finished already: change nothing.
    AlreadyCompleted,
    /// A number that the anime has: change nothing.
    Checked,
}

/// The decision of an episode command. Setting a number beyond the anime's
/// episodes is refused with `InvalidEpisodeCount`; a valid number changes
/// nothing (the command then only checks whether the anime is finished).
/// One up or one down applies unless the anime is finished already.
pub fn episode_update_decision(mutation: EpisodeMutation, anime: &Anime) -> (r: Result<EpisodeStep, InvalidArgError>)
    requires
        mutation is SetTo || anime.episode_progress is Some,
    ensures
        r == match mutation {
            EpisodeMutation::SetTo { number } => if number > anime.episodes {
                Err(InvalidArgError::InvalidEpisodeCount)
            } else {
                Ok(EpisodeStep::Checked)
            },
            _ => if finished(*anime) {
                Ok(EpisodeStep::AlreadyCompleted)
            } else {
                Ok(EpisodeStep::Apply)
            },
        },
{
    match mutation {
        EpisodeMutation::SetTo { number } => {
            if number > anime.episodes {
                Err(InvalidArgError::InvalidEpisodeCount)
            } else {
                Ok(EpisodeStep::Checked)
            }
        },
        _ => {
            if is_finished(anime) {
                Ok(EpisodeStep::AlreadyCompleted)
            } else {
                Ok(EpisodeStep::Apply)
            }
        },
    }
}

// ---------------------------------------------------------------- current

/// Setting today's date as the start date of the anime named `name`.
pub open spec fn start_today_view(name: Seq<char>) -> StatementView {
    date_mutation_view(name, None, DateType::Start, true)->Ok_0
}

/// What making an anime current runs. When it is current already, only an
/// anime still planned gets today's start date. Otherwise the mark is taken
/// from the previous current anime (if there is one) before it is given to
/// this anime, which becomes `Watching`; a planned anime gets today's start
/// date.
pub open spec fn set_current_plan_view(name: Seq<char>, previous_current_id: Option<u32>, selected_id: u32, selected_status: WatchStatus) -> (bool, Seq<StatementView>) {
    let start = if selected_status == WatchStatus::Planning {
        seq![start_today_view(name)]
    } else {
        Seq::empty()
    };
    if previous_current_id == Some(selected_id) {
        (true, start)
    } else {
        (
            false,
            (if previous_current_id is Some { seq![bare(remove_current_sql())] } else { Seq::empty() })
                + seq![set_current_view(name)] + start,
        )
    }
}

/// Making another anime current takes the mark from the previous current
/// anime before giving it to the new one, so at most one anime is current.
pub proof fn lemma_set_current_clears_previous(name: Seq<char>, previous_current_id: Option<u32>, selected_id: u32, selected_status: WatchStatus)
    requires
        previous_current_id is Some,
        previous_current_id != Some(selected_id),
    ensures
        set_current_plan_view(name, previous_current_id, selected_id, selected_status).0 == false,
        set_current_plan_view(name, previous_current_id, selected_id, selected_status).1[0] == bare(remove_current_sql()),
        set_current_plan_view(name, previous_current_id, selected_id, selected_status).1[1] == set_current_view(name),
{
}

/// The statements of `set-current`, and whether the anime was current already.
#[derive(Debug)]
pub struct SetCurrentPlan {
    pub already_current: bool,
    pub statements: Vec<SqlStatement>,
}

fn start_today(name: &str) -> (st: SqlStatement)
    ensures
        st@ == start_today_view(name@),
{
    match date_mutation_checked(name, None, DateType::Start, true) {
        Ok(st) => st,
        Err(e) => {
            proof { assert(false); }
            remove_current_statement()
        },
    }
}

/// Plans `set-current` for the anime named `name`, given the id of the
/// current anime (if any), and the id and watch status of the named one.
pub fn set_current_plan(name: &str, previous_current_id: Option<u32>, selected_id: u32, selected_status: WatchStatus) -> (p: SetCurrentPlan)
    ensures
        (p.already_current, statements_view(p.statements@)) == set_current_plan_view(name@, previous_current_id, selected_id, selected_status),
{
    let planning = selected_status == WatchStatus::Planning;
    let mut statements: Vec<SqlStatement> = Vec::new();
    let already_current = match previous_current_id {
        Some(id) => id == selected_id,
        None => false,
    };
    if !already_current {
        if previous_current_id.is_some() {
            statements.push(remove_current_statement());
        }
        statements.push(set_current_statement(name));
    }
    if planning {
        statements.push(start_today(name));
    }
    let p = SetCurrentPlan { already_current, statements };
    assert(statements_view(p.statements@) =~= set_current_plan_view(name@, previous_current_id, selected_id, selected_status).1);
    p
}

// ---------------------------------------------------------------- status

/// The statement of `set-status`, or `None` when the anime already has the
/// requested status.
pub fn watch_status_update(name: Option<&str>, previous: WatchStatus, requested: WatchStatus) -> (r: Option<SqlStatement>)
    ensures
        previous == requested ==> r is None,
        previous != requested ==> (r matches Some(st) && st@ == watch_status_mutation_view(requested, opt_text(name))),
{
    if previous == requested {
        None
    } else {
        Some(watch_status_mutation_statement(requested, name))
    }
}

// ---------------------------------------------------------------- completing

/// The first changes of `complete`: the progress is set to the number of
/// episodes, and the status to `Completed`. An anime completed already is
/// left alone (`None`).
pub fn completion_updates(name: Option<&str>, watch_status: WatchStatus, total_episodes: u16) -> (r: Option<Vec<SqlStatement>>)
    ensures
        watch_status == WatchStatus::Completed ==> r is None,
        watch_status != WatchStatus::Completed ==> (r matches Some(v) && statements_view(v@) == seq![
            episode_mutation_view(EpisodeMutation::SetTo { number: total_episodes }, opt_text(name), Some(total_episodes)),
            watch_status_mutation_view(WatchStatus::Completed, opt_text(name)),
        ]),
{
    if watch_status == WatchStatus::Completed {
        return None;
    }
    let mut v: Vec<SqlStatement> = Vec::new();
    v.push(episode_mutation_statement(EpisodeMutation::SetTo { number: total_episodes }, name, Some(total_episodes)));
    v.push(watch_status_mutation_statement(WatchStatus::Completed, name));
    assert(statements_view(v@) =~= seq![
        episode_mutation_view(EpisodeMutation::SetTo { number: total_episodes }, opt_text(name), Some(total_episodes)),
        watch_status_mutation_view(WatchStatus::Completed, opt_text(name)),
    ]);
    Some(v)
}

/// The question asked before the completion date of an anime completed
/// before is overridden; `None` when no completion date is recorded.
pub fn override_question(date_completed: &Option<String>) -> (q: Option<String>)
    ensures
        match date_completed {
            Some(d) => q matches Some(t) && t@ == "Anime was completed on "@ + d@ + ". Do you want to override(y/N)"@,
            None => q is None,
        },
{
    match date_completed {
        Some(d) => {
            let mut t = String::from_str("Anime was completed on ");
            t.append(d.as_str());
            t.append(". Do you want to override(y/N)");
            Some(t)
        },
        None => None,
    }
}

/// The views of a list of steps.
pub open spec fn steps_view(v: Seq<Result<SqlStatement, InvalidArgError>>) -> Seq<Result<StatementView, InvalidArgError>> {
    v.map_values(|s: Result<SqlStatement, InvalidArgError>| step_view(s))
}

/// The last steps of `complete`, run in order until one is an error. The
/// completion date (the given one, or today's) is set through the English
/// title, unless a date was recorded before and the learner does not answer
/// yes to overriding it; then a current anime stops being current.
pub open spec fn completion_tail_view(english_title: Seq<char>, date: Option<Seq<char>>, date_valid: bool, has_previous_date: bool, answer: Seq<char>, is_current: bool) -> Seq<Result<StatementView, InvalidArgError>> {
    (if !has_previous_date || is_yes(answer) {
        seq![date_mutation_view(english_title, date, DateType::End, date_valid)]
    } else {
        Seq::empty()
    }) + (if is_current { seq![Ok(bare(remove_current_sql()))] } else { Seq::empty() })
}

/// Plans the last steps of `complete`, given whether the date argument is
/// acceptable.
pub fn completion_tail_checked(english_title: &str, date: Option<&str>, date_valid: bool, has_previous_date: bool, answer: &str, is_current: bool) -> (v: Vec<Result<SqlStatement, InvalidArgError>>)
    ensures
        steps_view(v@) == completion_tail_view(english_title@, opt_text(date), date_valid, has_previous_date, answer@, is_current),
{
    let mut v: Vec<Result<SqlStatement, InvalidArgError>> = Vec::new();
    if !has_previous_date || answers_yes(answer) {
        v.push(date_mutation_checked(english_title, date, DateType::End, date_valid));
    }
    if is_current {
        v.push(Ok(remove_current_statement()));
    }
    assert(steps_view(v@) =~= completion_tail_view(english_title@, opt_text(date), date_valid, has_previous_date, answer@, is_current));
    v
}

/// Plans the last steps of `complete`.
pub fn completion_tail(english_title: &str, date: Option<&str>, has_previous_date: bool, answer: &str, is_current: bool) -> (v: Vec<Result<SqlStatement, InvalidArgError>>)
    ensures
        steps_view(v@) == completion_tail_view(
            english_title@,
            opt_text(date),
            date_argument_valid(opt_text(date)),
            has_previous_date,
            answer@,
            is_current,
        ),
{
    completion_tail_checked(english_title, date, date_validity(date), has_previous_date, answer, is_current)
}

} // verus!
