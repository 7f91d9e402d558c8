//! What the commands do, stated over all inputs in terms of the statements
//! they run: the text a statement has, the values bound to it, and how the
//! statements of one command relate to each other.
use vstd::prelude::*;
use crate::anime_api_data::{Anime, ListType, MediaType, WatchStatus};
use crate::commands::{CardsCommand, DateType, EpisodeMutation};
use crate::db::{
    add_anime_view, add_card_mutation_view, anime_by_name_exists_view, anime_query_by_name_view, bare,
    chrono_parses_ymd, create_table_sql, current_exists_sql, date_argument_valid, date_mutation_view, episode_mutation_view, episode_set_text,
    one_current_index_sql, opt_text, query_all_sql, query_current_sql, query_list_view, set_current_view,
    statements_view, step_view, watch_status_mutation_view, ParamView, SqlStatement, SqlValue, StatementView,
};
use crate::output::{detail_text, PrintStyle};
use crate::utils::{exists_query_view, home_relative_part, lemma_strip_home_prefixes, lookup_view};
use crate::anilist_api::search_body_text;
use crate::text::{char_value, digit_char};
use crate::error_ctrl::InvalidArgError;
use crate::operations::{completion_tail_view, finished, is_yes, set_current_plan_view, steps_view};
use crate::text::{decimal_digits, digits_value, lemma_decimal_digits_value};

verus! {

/// The statement that records today as the start date of the anime with the
/// title `name`.
pub open spec fn start_date_today(name: Seq<char>) -> StatementView {
    StatementView {
        sql: "UPDATE anime"@ + "\n"@ + "SET date_started = current_date"@ + "\n"@
            + "\n            WHERE english_name = ?1 COLLATE NOCASE\n            OR romaji_name = ?1 COLLATE NOCASE\n            OR native_name = ?1 COLLATE NOCASE;\n        "@,
        params: seq![ParamView::Text(name)],
    }
}

/// The statement that records today as the completion date of the anime
/// with the English title `title`.
pub open spec fn completion_date_today(title: Seq<char>) -> StatementView {
    StatementView {
        sql: "UPDATE anime"@ + "\n"@ + "SET date_completed = current_date"@ + "\n"@
            + "\n            WHERE english_name = ?1 COLLATE NOCASE\n            OR romaji_name = ?1 COLLATE NOCASE\n            OR native_name = ?1 COLLATE NOCASE;\n        "@,
        params: seq![ParamView::Text(title)],
    }
}

/// The statement that takes the current mark from every anime.
pub open spec fn clear_mark() -> StatementView {
    StatementView { sql: "UPDATE anime SET is_current = 0 WHERE is_current = 1;"@, params: Seq::empty() }
}

/// The statement that gives the anime with a title equal to `name` the
/// current mark and makes it `Watching`.
pub open spec fn mark_current(name: Seq<char>) -> StatementView {
    StatementView {
        sql: "\n        UPDATE anime SET is_current = 1,\n        watch_status = '"@ + "Watching"@
            + ("'\n        WHERE english_name = '"@ + name + "' COLLATE NOCASE\n        OR romaji_name = '"@ + name
            + "' COLLATE NOCASE \n        OR native_name = '"@ + name + "' COLLATE NOCASE;\n        "@),
        params: Seq::empty(),
    }
}

/// `set-current`: when the anime is current already, nothing moves and only
/// a planned anime gets today's start date. Otherwise the mark is taken from
/// the previous current anime (when there is one), then given to the named
/// anime, which becomes `Watching`; and a planned anime then gets today's
/// start date, whether or not another anime was current.
pub proof fn law_set_current(name: Seq<char>, previous_current_id: Option<u32>, selected_id: u32, status: WatchStatus)
    ensures
        set_current_plan_view(name, previous_current_id, selected_id, status).0 == (previous_current_id == Some(selected_id)),
        previous_current_id == Some(selected_id) && status == WatchStatus::Planning
            ==> set_current_plan_view(name, previous_current_id, selected_id, status).1 == seq![start_date_today(name)],
        previous_current_id == Some(selected_id) && status != WatchStatus::Planning
            ==> set_current_plan_view(name, previous_current_id, selected_id, status).1.len() == 0,
        previous_current_id is Some && previous_current_id != Some(selected_id) && status == WatchStatus::Planning
            ==> set_current_plan_view(name, previous_current_id, selected_id, status).1
                == seq![clear_mark(), mark_current(name), start_date_today(name)],
        previous_current_id is Some && previous_current_id != Some(selected_id) && status != WatchStatus::Planning
            ==> set_current_plan_view(name, previous_current_id, selected_id, status).1 == seq![clear_mark(), mark_current(name)],
        previous_current_id is None && status == WatchStatus::Planning
            ==> set_current_plan_view(name, previous_current_id, selected_id, status).1 == seq![mark_current(name), start_date_today(name)],
        previous_current_id is None && status != WatchStatus::Planning
            ==> set_current_plan_view(name, previous_current_id, selected_id, status).1 == seq![mark_current(name)],
{
    let v = set_current_plan_view(name, previous_current_id, selected_id, status).1;
    if previous_current_id == Some(selected_id) {
        if status == WatchStatus::Planning {
            assert(v =~= seq![start_date_today(name)]);
        }
    } else if previous_current_id is Some {
        if status == WatchStatus::Planning {
            assert(v =~= seq![clear_mark(), mark_current(name), start_date_today(name)]);
        } else {
            assert(v =~= seq![clear_mark(), mark_current(name)]);
        }
    } else {
        if status == WatchStatus::Planning {
            assert(v =~= seq![mark_current(name), start_date_today(name)]);
        } else {
            assert(v =~= seq![mark_current(name)]);
        }
    }
}

/// The condition that selects an anime by any of its three titles, with the
/// name written into the text.
pub open spec fn episode_by_titles(n: Seq<char>) -> Seq<char> {
    "WHERE english_name = '"@ + n + "' COLLATE NOCASE\n            OR romaji_name = '"@ + n
        + "' COLLATE NOCASE\n            OR native_name = '"@ + n + "' COLLATE NOCASE\n           ; "@
}

/// An episode change is `UPDATE anime`, the assignment, and the condition,
/// one per line. The condition depends on the name alone: a named anime is
/// selected by any of its three titles, whatever the change and whether a
/// number is given; without a name, the current anime is changed. The
/// assignment is one up or one down from the progress (missing counts as 0),
/// or, when a number is given, the decimal text of that number.
pub proof fn law_episode_change(mutation: EpisodeMutation, name: Option<Seq<char>>, number: Option<u16>)
    ensures
        episode_mutation_view(mutation, name, number).params.len() == 0,
        episode_mutation_view(mutation, name, number).sql == "UPDATE anime"@ + "\n"@
            + episode_set_text(mutation, number) + "\n"@ + match name {
            Some(n) => episode_by_titles(n),
            None => "WHERE is_current=1;"@,
        },
        number matches Some(k) ==> episode_set_text(mutation, number) == "SET episode_progress = "@ + decimal_digits(k as nat)
            && digits_value(decimal_digits(k as nat)) == k,
        number is None && mutation is Add ==> episode_set_text(mutation, number) == "SET episode_progress = COALESCE(episode_progress,0) + 1"@,
        number is None && mutation is Subtract ==> episode_set_text(mutation, number) == "SET episode_progress = COALESCE(episode_progress,0) - 1"@,
        number is None && mutation is SetTo ==> episode_set_text(mutation, number).len() == 0,
{
    if let Some(k) = number {
        lemma_decimal_digits_value(k as nat);
    }
}

/// The condition of the named flashcard changes: any of the three titles.
pub open spec fn cards_by_titles() -> Seq<char> {
    "\n            where english_name = :name COLLATE NOCASE\n            OR romaji_name = :name COLLATE NOCASE\n            OR native_name = :name COLLATE NOCASE;\n            "@
}

/// Flashcards: `cards add` adds the number to the count (a missing count
/// counts as 0) and `cards total` sets it. A named anime is selected by any of
/// its three titles, with the same condition for adding and for setting, and
/// the number and the name are bound in that order; without a name the
/// current anime is changed and only the number is bound.
pub proof fn law_cards_change(command: CardsCommand, number: u32, name: Option<Seq<char>>)
    ensures
        name matches Some(n) ==> add_card_mutation_view(command, number, name).params
            == seq![ParamView::Integer(number as int), ParamView::Text(n)],
        name is None ==> add_card_mutation_view(command, number, name).params == seq![ParamView::Integer(number as int)],
        name is Some && command is Add ==> add_card_mutation_view(command, number, name).sql
            == "UPDATE anime \n            SET anki_flashcards= COALESCE(anki_flashcards,0) + :number"@ + cards_by_titles(),
        name is Some && command is Total ==> add_card_mutation_view(command, number, name).sql
            == "UPDATE anime \n            SET anki_flashcards= :number"@ + cards_by_titles(),
        name is None && command is Add ==> add_card_mutation_view(command, number, name).sql
            == "UPDATE anime SET anki_flashcards=COALESCE(anki_flashcards,0) + ?1 WHERE is_current=1"@,
        name is None && command is Total ==> add_card_mutation_view(command, number, name).sql
            == "UPDATE anime SET anki_flashcards=?1 WHERE is_current=1"@,
{
}

/// Listing: `All` reads every row; any other list reads the rows whose
/// stored watch status is the list's status, bound as the stored text of that
/// status.
pub proof fn law_listing_query(l: ListType, m: MediaType)
    ensures
        l == ListType::All ==> query_list_view(l, m).sql == "SELECT * FROM anime"@ && query_list_view(l, m).params.len() == 0,
        l != ListType::All ==> query_list_view(l, m).sql == "SELECT * FROM anime WHERE watch_status = :list_type"@
            && query_list_view(l, m).params == seq![ParamView::Text(l.status().unwrap().text())]
            && WatchStatus::from_text(l.status().unwrap().text()) == l.status().unwrap(),
{
    if l != ListType::All {
        crate::anime_api_data::lemma_watch_status_text_round_trip(l.status().unwrap());
    }
}

/// `complete`, after progress and status: when no completion date was
/// recorded, the completion date is always set (to the given date, which
/// must be valid, or to today), whatever the date argument and whether the
/// anime is current; when one was recorded, only on a yes. A current anime
/// then loses its mark, and nothing else is run.
pub proof fn law_completion_tail(title: Seq<char>, date: Option<Seq<char>>, valid: bool, has_previous_date: bool, answer: Seq<char>, is_current: bool)
    ensures
        completion_tail_view(title, date, valid, has_previous_date, answer, is_current).len()
            == (if !has_previous_date || is_yes(answer) { 1int } else { 0int }) + (if is_current { 1int } else { 0int }),
        !has_previous_date && date is None
            ==> completion_tail_view(title, date, valid, has_previous_date, answer, is_current)[0] == Ok::<StatementView, InvalidArgError>(completion_date_today(title)),
        !has_previous_date && date is Some && !valid
            ==> completion_tail_view(title, date, valid, has_previous_date, answer, is_current)[0] == Err::<StatementView, InvalidArgError>(InvalidArgError::Date),
        (!has_previous_date || is_yes(answer))
            ==> completion_tail_view(title, date, valid, has_previous_date, answer, is_current)[0]
                == date_mutation_view(title, date, DateType::End, valid),
        is_current ==> completion_tail_view(title, date, valid, has_previous_date, answer, is_current).last()
            == Ok::<StatementView, InvalidArgError>(clear_mark()),
{
    let v = completion_tail_view(title, date, valid, has_previous_date, answer, is_current);
    if !has_previous_date && date is None {
        assert(date_mutation_view(title, date, DateType::End, valid)->Ok_0.params =~= completion_date_today(title).params);
    }
    assert(clear_mark().params =~= Seq::<ParamView>::empty());
}


/// The texts of the statuses, lists and media type, and how stored text reads
/// back: each status from its own text, anything else as `Planning`.
pub proof fn law_texts(t: Seq<char>)
    ensures
        WatchStatus::Watching.text() == "Watching"@,
        WatchStatus::Planning.text() == "Planning"@,
        WatchStatus::Completed.text() == "Completed"@,
        ListType::All.text() == "All"@,
        ListType::Watching.text() == "Watching"@,
        ListType::Planning.text() == "Planning"@,
        ListType::Completed.text() == "Completed"@,
        MediaType::Anime.text() == "ANIME"@,
        t == "Watching"@ ==> WatchStatus::from_text(t) == WatchStatus::Watching,
        t == "Planning"@ ==> WatchStatus::from_text(t) == WatchStatus::Planning,
        t == "Completed"@ ==> WatchStatus::from_text(t) == WatchStatus::Completed,
        t != "Watching"@ && t != "Completed"@ ==> WatchStatus::from_text(t) == WatchStatus::Planning,
{
    crate::anime_api_data::lemma_watch_status_text_round_trip(WatchStatus::Watching);
    crate::anime_api_data::lemma_watch_status_text_round_trip(WatchStatus::Planning);
    crate::anime_api_data::lemma_watch_status_text_round_trip(WatchStatus::Completed);
}

/// The message shown for each refusal.
pub proof fn law_messages()
    ensures
        InvalidArgError::Current.message_text() == "No anime is set as current. Set one anime as current before using"@,
        InvalidArgError::InvalidName.message_text() == "Anime not in db. Check if name is correct"@,
        InvalidArgError::Date.message_text() == "Invalid Date Error: Use format YYYY-MM-DD"@,
        InvalidArgError::InvalidEpisodeCount.message_text() == "Error: Invalid episode count"@,
        InvalidArgError::InvalidPath.message_text() == "Error: Path doesn't exist"@,
        InvalidArgError::InvalidChoice.message_text() == "Error: Invalid Choice"@,
        InvalidArgError::InvalidAnime.message_text() == "Error: No such anime found"@,
{
}

/// The views used by the contracts keep every element, in order, and every
/// character and number.
pub proof fn law_views(v: Seq<SqlStatement>, w: Seq<Result<SqlStatement, InvalidArgError>>, x: SqlValue, st: SqlStatement, o: Option<&str>)
    ensures
        statements_view(v).len() == v.len(),
        forall|i: int| 0 <= i < v.len() ==> #[trigger] statements_view(v)[i] == v[i]@,
        steps_view(w).len() == w.len(),
        forall|i: int| 0 <= i < w.len() ==> #[trigger] steps_view(w)[i] == step_view(w[i]),
        forall|r: Result<SqlStatement, InvalidArgError>| #[trigger] step_view(r) == match r {
            Ok(s) => Ok::<StatementView, InvalidArgError>(s@),
            Err(e) => Err(e),
        },
        x matches SqlValue::Integer(i) ==> x@ == ParamView::Integer(i as int),
        x matches SqlValue::Text(t) ==> x@ == ParamView::Text(t@),
        st@.sql == st.sql@,
        st@.params.len() == st.params@.len(),
        forall|i: int| 0 <= i < st.params@.len() ==> #[trigger] st@.params[i] == st.params@[i]@,
        o matches Some(t) ==> opt_text(o) == Some(t@),
        o is None ==> opt_text(o) is None,
        forall|q: Seq<char>| #[trigger] bare(q) == (StatementView { sql: q, params: Seq::empty() }),
{
}

/// Decimal text: one digit below ten, otherwise the text of the tens
/// followed by the last digit; the digits are the characters `0` to `9`.
pub proof fn law_decimal(n: nat, d: nat)
    ensures
        n < 10 ==> decimal_digits(n) == seq![digit_char(n)],
        n >= 10 ==> decimal_digits(n) == decimal_digits(n / 10).push(digit_char(n % 10)),
        d < 10 ==> digit_char(d) as u32 == 48 + d,
        d < 10 ==> char_value(digit_char(d)) == d,
        digits_value(decimal_digits(n)) == n,
{
    lemma_decimal_digits_value(n);
}

/// The fixed statements: reading the current anime, asking whether one is
/// current, reading every anime, and the schema with the unique index that
/// lets at most one anime be current.
pub proof fn law_fixed_statements()
    ensures
        query_current_sql() == "select * from anime where is_current=1"@,
        current_exists_sql() == "select exists( select 1 from anime where is_current=1)"@,
        query_all_sql() == "\n        SELECT * from anime;\n        "@,
        one_current_index_sql() == "CREATE UNIQUE INDEX one_current ON anime(is_current) WHERE is_current=1"@,
        create_table_sql() == "\n                CREATE TABLE IF NOT EXISTS anime(\n                    id INTEGER PRIMARY KEY,\n                    english_name TEXT,\n                    romaji_name TEXT,\n                    native_name TEXT,\n                    date_started TEXT,\n                    date_completed TEXT, \n                    date_added TEXT,\n                    total_episodes INTEGER, \n                    episode_progress INTEGER, \n                    anki_flashcards INTEGER, \n                    is_current INTEGER,\n                    anilist_url TEXT,\n                    watch_sequence INTEGER,\n                    watch_status TEXT,\n                    media_type TEXT\n                ), STRICT\n            "@,
{
}

/// Adding an anime inserts one row whose values are the anime's id, its
/// English, romaji and native titles, its episode count, the current flag
/// (1 or 0), its URL, the stored text of the chosen status (which reads back
/// as that status) and its media type. Added as current, the mark is first
/// taken from every anime and the start date of the new one (selected by its
/// id) is set to today afterwards; otherwise nothing else runs.
pub proof fn law_add_anime(a: Anime, ws: WatchStatus, is_current: bool)
    ensures
        ({
            let v = add_anime_view(a, ws, is_current);
            let ins = if is_current { v[1] } else { v[0] };
            &&& v.len() == if is_current { 3int } else { 1int }
            &&& ins.sql == "INSERT INTO anime(id, english_name, romaji_name, native_name, date_added, total_episodes, is_current, anilist_url, watch_status, media_type) \n                 VALUES(?1, ?2, ?3, ?4, current_date, ?5, ?6, ?7, ?8, ?9 )"@
            &&& ins.params.len() == 9
            &&& ins.params[0] == ParamView::Integer(a.id as int)
            &&& ins.params[1] == ParamView::Text(a.title.english@)
            &&& ins.params[2] == ParamView::Text(a.title.romaji@)
            &&& ins.params[3] == ParamView::Text(a.title.native@)
            &&& ins.params[4] == ParamView::Integer(a.episodes as int)
            &&& ins.params[5] == ParamView::Integer(if is_current { 1 } else { 0 })
            &&& ins.params[6] == ParamView::Text(a.url@)
            &&& (ins.params[7] matches ParamView::Text(t) && WatchStatus::from_text(t) == ws && t == ws.text())
            &&& ins.params[8] == ParamView::Text(a.media_type@)
            &&& is_current ==> v[0] == (StatementView { sql: "UPDATE anime SET is_current = false WHERE is_current = true"@, params: Seq::empty() })
            &&& is_current ==> v[2] == (StatementView {
                sql: "UPDATE anime SET date_started = current_date WHERE id=?1"@,
                params: seq![ParamView::Integer(a.id as int)],
            })
        }),
{
    crate::anime_api_data::lemma_watch_status_text_round_trip(ws);
    assert(bare("UPDATE anime SET is_current = false WHERE is_current = true"@).params =~= Seq::<ParamView>::empty());
}

/// The condition that selects an anime by any of its three titles, with the
/// name written into the text.
pub open spec fn query_by_titles(n: Seq<char>) -> Seq<char> {
    "\n        select * from anime\n        where english_name = '"@ + n + "' COLLATE NOCASE\n        OR romaji_name = '"@ + n
        + "' COLLATE NOCASE\n        OR native_name = '"@ + n + "' COLLATE NOCASE;\n        "@
}

/// Finding the anime a command names: a name is looked up by any of its
/// three titles (bound once to the existence query, written into the read
/// query), and a missing one is refused with `InvalidName`; without a name
/// the current anime is meant, and its absence is refused with `Current`.
pub proof fn law_lookup(name: Option<Seq<char>>, found: bool)
    ensures
        name matches Some(n) ==> exists_query_view(name) == (StatementView {
            sql: "\n        SELECT EXISTS( SELECT 1 FROM anime \n        WHERE english_name = :name COLLATE NOCASE\n        OR romaji_name = :name COLLATE NOCASE\n        OR native_name = :name COLLATE NOCASE);\n    "@,
            params: seq![ParamView::Text(n)],
        }),
        name is None ==> exists_query_view(name) == (StatementView {
            sql: "select exists( select 1 from anime where is_current=1)"@,
            params: Seq::empty(),
        }),
        name matches Some(n) ==> (found ==> lookup_view(name, found) == Ok::<StatementView, InvalidArgError>(StatementView { sql: query_by_titles(n), params: Seq::empty() })),
        name matches Some(n) ==> anime_query_by_name_view(n) == (StatementView { sql: query_by_titles(n), params: Seq::empty() }),
        name is Some && !found ==> lookup_view(name, found) == Err::<StatementView, InvalidArgError>(InvalidArgError::InvalidName),
        name is None && found ==> lookup_view(name, found) == Ok::<StatementView, InvalidArgError>(StatementView {
            sql: "select * from anime where is_current=1"@,
            params: Seq::empty(),
        }),
        name is None && !found ==> lookup_view(name, found) == Err::<StatementView, InvalidArgError>(InvalidArgError::Current),
{
    if let Some(n) = name {
        assert(anime_by_name_exists_view(n).params =~= seq![ParamView::Text(n)]);
    }
}

pub open spec fn date_by_titles() -> Seq<char> {
    "\n            WHERE english_name = ?1 COLLATE NOCASE\n            OR romaji_name = ?1 COLLATE NOCASE\n            OR native_name = ?1 COLLATE NOCASE;\n        "@
}

/// Setting a date: the column is `date_started` for the start and
/// `date_completed` for the end; the value is the given date (bound second)
/// or today; the anime is selected by any of its three titles (bound first).
/// A given date that is not valid is refused with `Date`.
pub proof fn law_date_change(name: Seq<char>, date: Option<Seq<char>>, dt: DateType, valid: bool)
    ensures
        date_argument_valid(None),
        date matches Some(d) ==> date_argument_valid(date) == chrono_parses_ymd(d),
        date is Some && !valid ==> date_mutation_view(name, date, dt, valid) == Err::<StatementView, InvalidArgError>(InvalidArgError::Date),
        date matches Some(d) ==> (valid ==> date_mutation_view(name, date, dt, valid) == Ok::<StatementView, InvalidArgError>(StatementView {
            sql: "UPDATE anime"@ + "\n"@ + (if dt is Start { "SET date_started = ?2"@ } else { "SET date_completed = ?2"@ }) + "\n"@ + date_by_titles(),
            params: seq![ParamView::Text(name), ParamView::Text(d)],
        })),
        date is None ==> date_mutation_view(name, date, dt, valid) == Ok::<StatementView, InvalidArgError>(StatementView {
            sql: "UPDATE anime"@ + "\n"@ + (if dt is Start { "SET date_started = current_date"@ } else { "SET date_completed = current_date"@ }) + "\n"@ + date_by_titles(),
            params: seq![ParamView::Text(name)],
        }),
{
}

/// Setting the watch status binds the stored text of the status first (it
/// reads back as that status); a named anime is selected by any of its three
/// titles (the name bound second), otherwise the current anime is changed.
pub proof fn law_watch_status_change(ws: WatchStatus, name: Option<Seq<char>>)
    ensures
        watch_status_mutation_view(ws, name).params[0] == ParamView::Text(ws.text()),
        WatchStatus::from_text(ws.text()) == ws,
        name matches Some(n) ==> watch_status_mutation_view(ws, name) == (StatementView {
            sql: "UPDATE anime SET watch_status = ?1"@ + "\n"@
                + "\n            WHERE english_name = ?2 COLLATE NOCASE\n            OR romaji_name = ?2 COLLATE NOCASE\n            OR native_name = ?2 COLLATE NOCASE;\n                "@,
            params: seq![ParamView::Text(ws.text()), ParamView::Text(n)],
        }),
        name is None ==> watch_status_mutation_view(ws, name) == (StatementView {
            sql: "UPDATE anime SET watch_status = ?1"@ + "\n"@ + "WHERE is_current = 1"@,
            params: seq![ParamView::Text(ws.text())],
        }),
{
    crate::anime_api_data::lemma_watch_status_text_round_trip(ws);
}

/// Making an anime current gives the mark and the `Watching` status to the
/// anime with a title equal to the name, written into the text.
pub proof fn law_mark_current(name: Seq<char>)
    ensures
        set_current_view(name) == mark_current(name),
{
}

/// What is shown after the line of an anime: nothing for `Current`; the
/// start or completion date, or `None`; the flashcard count, whose digits
/// read back as the count (0 when missing); the status text, which reads back
/// as the status (`Planning` when missing).
pub proof fn law_detail(a: Anime, style: PrintStyle)
    ensures
        style is Current ==> detail_text(a, style) is None,
        style is StartDate ==> (a.date_started matches Some(d) ==> detail_text(a, style) == Some(d@)),
        style is StartDate && a.date_started is None ==> detail_text(a, style) == Some("None"@),
        style is EndDate ==> (a.date_completed matches Some(d) ==> detail_text(a, style) == Some(d@)),
        style is EndDate && a.date_completed is None ==> detail_text(a, style) == Some("None"@),
        style is Anki ==> (detail_text(a, style) matches Some(t) && digits_value(t) == match a.anki_flashcards {
            Some(n) => n as nat,
            None => 0,
        }),
        style is WatchStatus ==> (detail_text(a, style) matches Some(t) && WatchStatus::from_text(t) == match a.watch_status {
            Some(s) => s,
            None => WatchStatus::Planning,
        }),
{
    lemma_decimal_digits_value(match a.anki_flashcards {
        Some(n) => n as nat,
        None => 0,
    });
    crate::anime_api_data::lemma_watch_status_text_round_trip(match a.watch_status {
        Some(s) => s,
        None => WatchStatus::Planning,
    });
}

/// A yes is exactly one character, `y` or `Y`.
pub proof fn law_yes(answer: Seq<char>)
    ensures
        is_yes(answer) <==> (answer.len() == 1 && (answer[0] == 'y' || answer[0] == 'Y')),
{
    reveal_strlit("y");
    reveal_strlit("Y");
    if answer.len() == 1 && answer[0] == 'y' {
        assert(answer =~= "y"@);
    }
    if answer.len() == 1 && answer[0] == 'Y' {
        assert(answer =~= "Y"@);
    }
}

/// An anime is finished exactly when its recorded progress equals its number
/// of episodes.
pub proof fn law_finished(a: Anime)
    ensures
        finished(a) <==> (a.episode_progress matches Some(p) && p == a.episodes),
{
}

/// An export path is home-relative when it is `~` or begins with `~/`; the
/// part under the home directory is what remains after every leading `~/`
/// is removed: it does not begin with `~/`, and the removed prefix is a run
/// of `~/`.
pub proof fn law_home_relative(p: Seq<char>)
    ensures
        home_relative_part(p) is Some <==> (p == seq!['~'] || (p.len() >= 2 && p[0] == '~' && p[1] == '/')),
        home_relative_part(p) matches Some(r) ==> {
            &&& !(r.len() >= 2 && r[0] == '~' && r[1] == '/')
            &&& r.len() <= p.len()
            &&& p.subrange(p.len() - r.len(), p.len() as int) == r
            &&& (p.len() - r.len()) % 2 == 0
            &&& forall|i: int| 0 <= i < p.len() - r.len() ==> #[trigger] p[i] == if i % 2 == 0 { '~' } else { '/' }
        },
{
    lemma_strip_home_prefixes(p);
}

/// The search request is the compact JSON object with the query and the
/// `search` variable.
pub proof fn law_search_body(q: Seq<char>, t: Seq<char>)
    ensures
        search_body_text(q, t) == "{\"query\":"@ + q + ",\"variables\":{\"search\":"@ + t + "}}"@,
{
}

} // verus!
