//! The SQL statements that the tracker runs against its SQLite database, each
//! with the parameters bound to it. Running them is left to the caller; what
//! is decided here is which statement, with which text and which values.
use vstd::prelude::*;
use crate::anime_api_data::{lemma_watch_status_texts_distinct, Anime, ListType, MediaType, WatchStatus};
use crate::commands::{CardsCommand, DateType, EpisodeMutation};
use crate::error_ctrl::InvalidArgError;
use crate::text::{decimal_digits, decimal_text};

verus! {

/// A value bound to a parameter of a statement.
#[derive(Debug, PartialEq, Eq)]
pub enum SqlValue {
    Integer(i64),
    Text(String),
}

/// A parameter value, as a mathematical value.
pub enum ParamView {
    Integer(int),
    Text(Seq<char>),
}

impl View for SqlValue {
    type V = ParamView;

    open spec fn view(&self) -> ParamView {
        match self {
            SqlValue::Integer(i) => ParamView::Integer(*i as int),
            SqlValue::Text(s) => ParamView::Text(s@),
        }
    }
}

/// An SQL statement and the values of its parameters, in the order of their
/// indices (`?1`, `?2`, ...; a named parameter takes the index of its first
/// appearance).
#[derive(Debug, PartialEq, Eq)]
pub struct SqlStatement {
    pub sql: String,
    pub params: Vec<SqlValue>,
}

/// A statement, as mathematical values.
pub struct StatementView {
    pub sql: Seq<char>,
    pub params: Seq<ParamView>,
}

impl View for SqlStatement {
    type V = StatementView;

    open spec fn view(&self) -> StatementView {
        StatementView { sql: self.sql@, params: self.params@.map_values(|p: SqlValue| p@) }
    }
}

/// The views of a list of statements.
pub open spec fn statements_view(v: Seq<SqlStatement>) -> Seq<StatementView> {
    v.map_values(|s: SqlStatement| s@)
}

/// The view of a statement or of the error that stands in its place.
pub open spec fn step_view(r: Result<SqlStatement, InvalidArgError>) -> Result<StatementView, InvalidArgError> {
    match r {
        Ok(s) => Ok(s@),
        Err(e) => Err(e),
    }
}

/// The characters of an optional string.
pub open spec fn opt_text(o: Option<&str>) -> Option<Seq<char>> {
    match o {
        Some(s) => Some(s@),
        None => None,
    }
}

/// A statement without parameters.
pub open spec fn bare(sql: Seq<char>) -> StatementView {
    StatementView { sql, params: Seq::empty() }
}

/// `a`, then the name, `b`, the name, `c`, the name, and `d`: the text of a
/// condition that matches an anime by any of its three titles.
pub open spec fn by_name_text(a: Seq<char>, name: Seq<char>, b: Seq<char>, c: Seq<char>, d: Seq<char>) -> Seq<char> {
    a + name + b + name + c + name + d
}

fn text_value(s: &str) -> (v: SqlValue)
    ensures
        v@ == ParamView::Text(s@),
{
    SqlValue::Text(String::from_str(s))
}

fn bare_statement(sql: &str) -> (st: SqlStatement)
    ensures
        st@ == bare(sql@),
{
    let st = SqlStatement { sql: String::from_str(sql), params: Vec::new() };
    assert(st@.params =~= Seq::<ParamView>::empty());
    st
}

fn by_name(a: &str, name: &str, b: &str, c: &str, d: &str) -> (s: String)
    ensures
        s@ == by_name_text(a@, name@, b@, c@, d@),
{
    let mut s = String::from_str(a);
    s.append(name);
    s.append(b);
    s.append(name);
    s.append(c);
    s.append(name);
    s.append(d);
    s
}

// ---------------------------------------------------------------- schema

pub open spec fn create_table_sql() -> Seq<char> {
    "\n                CREATE TABLE IF NOT EXISTS anime(\n                    id INTEGER PRIMARY KEY,\n                    english_name TEXT,\n                    romaji_name TEXT,\n                    native_name TEXT,\n                    date_started TEXT,\n                    date_completed TEXT, \n                    date_added TEXT,\n                    total_episodes INTEGER, \n                    episode_progress INTEGER, \n                    anki_flashcards INTEGER, \n                    is_current INTEGER,\n                    anilist_url TEXT,\n                    watch_sequence INTEGER,\n                    watch_status TEXT,\n                    media_type TEXT\n                ), STRICT\n            "@
}

pub open spec fn one_current_index_sql() -> Seq<char> {
    "CREATE UNIQUE INDEX one_current ON anime(is_current) WHERE is_current=1"@
}

/// What opening the database runs: when the `anime` table is missing, the
/// table and the unique index that lets at most one anime be current.
pub fn connect_statements(table_exists: bool) -> (v: Vec<SqlStatement>)
    ensures
        table_exists ==> v@.len() == 0,
        !table_exists ==> statements_view(v@) == seq![bare(create_table_sql()), bare(one_current_index_sql())],
{
    let mut v: Vec<SqlStatement> = Vec::new();
    if !table_exists {
        v.push(bare_statement("\n                CREATE TABLE IF NOT EXISTS anime(\n                    id INTEGER PRIMARY KEY,\n                    english_name TEXT,\n                    romaji_name TEXT,\n                    native_name TEXT,\n                    date_started TEXT,\n                    date_completed TEXT, \n                    date_added TEXT,\n                    total_episodes INTEGER, \n                    episode_progress INTEGER, \n                    anki_flashcards INTEGER, \n                    is_current INTEGER,\n                    anilist_url TEXT,\n                    watch_sequence INTEGER,\n                    watch_status TEXT,\n                    media_type TEXT\n                ), STRICT\n            "));
        v.push(bare_statement("CREATE UNIQUE INDEX one_current ON anime(is_current) WHERE is_current=1"));
        assert(statements_view(v@) =~= seq![bare(create_table_sql()), bare(one_current_index_sql())]);
    }
    v
}

// ---------------------------------------------------------------- adding

pub open spec fn clear_current_sql() -> Seq<char> {
    "UPDATE anime SET is_current = false WHERE is_current = true"@
}

pub open spec fn insert_anime_sql() -> Seq<char> {
    "INSERT INTO anime(id, english_name, romaji_name, native_name, date_added, total_episodes, is_current, anilist_url, watch_status, media_type) \n                 VALUES(?1, ?2, ?3, ?4, current_date, ?5, ?6, ?7, ?8, ?9 )"@
}

pub open spec fn set_date_started_sql() -> Seq<char> {
    "UPDATE anime SET date_started = current_date WHERE id=?1"@
}

/// The row that adding an anime inserts.
pub open spec fn insert_anime_view(a: Anime, watch_status: WatchStatus, is_current: bool) -> StatementView {
    StatementView {
        sql: insert_anime_sql(),
        params: seq![
            ParamView::Integer(a.id as int),
            ParamView::Text(a.title.english@),
            ParamView::Text(a.title.romaji@),
            ParamView::Text(a.title.native@),
            ParamView::Integer(a.episodes as int),
            ParamView::Integer(if is_current { 1 } else { 0 }),
            ParamView::Text(a.url@),
            ParamView::Text(watch_status.text()),
            ParamView::Text(a.media_type@),
        ],
    }
}

/// What adding an anime runs. An anime added as current first takes the mark
/// from every other anime, and its start date is set to today.
pub open spec fn add_anime_view(a: Anime, watch_status: WatchStatus, is_current: bool) -> Seq<StatementView> {
    if is_current {
        seq![
            bare(clear_current_sql()),
            insert_anime_view(a, watch_status, is_current),
            StatementView { sql: set_date_started_sql(), params: seq![ParamView::Integer(a.id as int)] },
        ]
    } else {
        seq![insert_anime_view(a, watch_status, is_current)]
    }
}

/// At most one anime is current: adding an anime as current first takes the
/// mark from every anime, then inserts the new row with the mark; an anime
/// added otherwise is inserted without it and nothing else changes.
pub proof fn lemma_add_anime_keeps_one_current(a: Anime, watch_status: WatchStatus, is_current: bool)
    ensures
        is_current ==> add_anime_view(a, watch_status, is_current).len() == 3
            && add_anime_view(a, watch_status, is_current)[0] == bare(clear_current_sql())
            && add_anime_view(a, watch_status, is_current)[1].sql == insert_anime_sql()
            && add_anime_view(a, watch_status, is_current)[1].params[5] == ParamView::Integer(1)
            && add_anime_view(a, watch_status, is_current)[2].sql == set_date_started_sql(),
        !is_current ==> add_anime_view(a, watch_status, is_current).len() == 1
            && add_anime_view(a, watch_status, is_current)[0].sql == insert_anime_sql()
            && add_anime_view(a, watch_status, is_current)[0].params[5] == ParamView::Integer(0),
{
}

/// The statements that add an anime found through the API to the database.
pub fn add_anime_statements(api_data: &Anime, watch_status: WatchStatus, is_current: bool) -> (v: Vec<SqlStatement>)
    ensures
        statements_view(v@) == add_anime_view(*api_data, watch_status, is_current),
{
    let mut v: Vec<SqlStatement> = Vec::new();
    if is_current {
        v.push(bare_statement("UPDATE anime SET is_current = false WHERE is_current = true"));
    }
    let status = watch_status.to_text();
    let mut params: Vec<SqlValue> = Vec::new();
    params.push(SqlValue::Integer(api_data.get_id() as i64));
    params.push(text_value(api_data.get_english_title()));
    params.push(text_value(api_data.get_romaji_title()));
    params.push(text_value(api_data.get_native_title()));
    params.push(SqlValue::Integer(api_data.get_episode_count() as i64));
    params.push(SqlValue::Integer(if is_current { 1 } else { 0 }));
    params.push(text_value(api_data.get_url()));
    params.push(SqlValue::Text(status));
    params.push(text_value(api_data.get_media_type()));
    let insert = SqlStatement {
        sql: String::from_str("INSERT INTO anime(id, english_name, romaji_name, native_name, date_added, total_episodes, is_current, anilist_url, watch_status, media_type) \n                 VALUES(?1, ?2, ?3, ?4, current_date, ?5, ?6, ?7, ?8, ?9 )"),
        params,
    };
    assert(insert@.params =~= insert_anime_view(*api_data, watch_status, is_current).params);
    v.push(insert);
    if is_current {
        let mut p: Vec<SqlValue> = Vec::new();
        p.push(SqlValue::Integer(api_data.get_id() as i64));
        let started = SqlStatement {
            sql: String::from_str("UPDATE anime SET date_started = current_date WHERE id=?1"),
            params: p,
        };
        assert(started@.params =~= seq![ParamView::Integer(api_data.id as int)]);
        v.push(started);
    }
    assert(statements_view(v@) =~= add_anime_view(*api_data, watch_status, is_current));
    v
}

// ---------------------------------------------------------------- reading

pub open spec fn query_current_sql() -> Seq<char> {
    "select * from anime where is_current=1"@
}

pub open spec fn current_exists_sql() -> Seq<char> {
    "select exists( select 1 from anime where is_current=1)"@
}

pub open spec fn query_all_sql() -> Seq<char> {
    "\n        SELECT * from anime;\n        "@
}

pub open spec fn anime_by_name_exists_sql() -> Seq<char> {
    "\n        SELECT EXISTS( SELECT 1 FROM anime \n        WHERE english_name = :name COLLATE NOCASE\n        OR romaji_name = :name COLLATE NOCASE\n        OR native_name = :name COLLATE NOCASE);\n    "@
}

/// The query for the rows of the anime with a title equal to `name` (the
/// name is written into the text, between single quotes).
pub open spec fn anime_query_by_name_view(name: Seq<char>) -> StatementView {
    bare(by_name_text(
        "\n        select * from anime\n        where english_name = '"@,
        name,
        "' COLLATE NOCASE\n        OR romaji_name = '"@,
        "' COLLATE NOCASE\n        OR native_name = '"@,
        "' COLLATE NOCASE;\n        "@,
    ))
}

/// The query whether an anime with a title equal to `name` exists.
pub open spec fn anime_by_name_exists_view(name: Seq<char>) -> StatementView {
    StatementView { sql: anime_by_name_exists_sql(), params: seq![ParamView::Text(name)] }
}

/// The query for the anime marked as current.
pub fn query_current_statement() -> (st: SqlStatement)
    ensures
        st@ == bare(query_current_sql()),
{
    bare_statement("select * from anime where is_current=1")
}

/// The query whether some anime is marked as current.
pub fn current_exists_statement() -> (st: SqlStatement)
    ensures
        st@ == bare(current_exists_sql()),
{
    bare_statement("select exists( select 1 from anime where is_current=1)")
}

/// The query for every anime.
pub fn query_all_statement() -> (st: SqlStatement)
    ensures
        st@ == bare(query_all_sql()),
{
    bare_statement("\n        SELECT * from anime;\n        ")
}

/// The query for a listing: every anime, or those whose stored watch status
/// is the name of the list.
pub open spec fn query_list_view(list_type: ListType, media_type: MediaType) -> StatementView {
    match list_type {
        ListType::All => bare("SELECT * FROM anime"@),
        _ => StatementView {
            sql: "SELECT * FROM anime WHERE watch_status = :list_type"@,
            params: seq![ParamView::Text(list_type.text())],
        },
    }
}

/// Listing a status finds exactly the anime added with that status: the
/// listing's filter is the text stored for that status, and differs from the
/// text stored for any other status.
pub proof fn lemma_listing_finds_added_status(l: ListType, media_type: MediaType, a: Anime, is_current: bool, other: WatchStatus)
    requires
        l != ListType::All,
    ensures
        query_list_view(l, media_type).params == seq![insert_anime_view(a, l.status().unwrap(), is_current).params[7]],
        other != l.status().unwrap() ==> query_list_view(l, media_type).params[0] != insert_anime_view(a, other, is_current).params[7],
{
    if other != l.status().unwrap() {
        lemma_watch_status_texts_distinct(other, l.status().unwrap());
    }
    assert(query_list_view(l, media_type).params =~= seq![insert_anime_view(a, l.status().unwrap(), is_current).params[7]]);
}

/// The query that lists the anime of a list.
pub fn query_list_statement(list_type: ListType, media_type: MediaType) -> (st: SqlStatement)
    ensures
        st@ == query_list_view(list_type, media_type),
{
    match media_type {
        MediaType::Anime => match list_type {
            ListType::All => bare_statement("SELECT * FROM anime"),
            _ => {
                let mut params: Vec<SqlValue> = Vec::new();
                params.push(SqlValue::Text(list_type.to_text()));
                let st = SqlStatement {
                    sql: String::from_str("SELECT * FROM anime WHERE watch_status = :list_type"),
                    params,
                };
                assert(st@.params =~= query_list_view(list_type, media_type).params);
                st
            },
        },
    }
}

/// The query for the anime with a title equal to `name`.
pub fn anime_query_by_name_statement(name: &str) -> (st: SqlStatement)
    ensures
        st@ == anime_query_by_name_view(name@),
{
    let sql = by_name(
        "\n        select * from anime\n        where english_name = '",
        name,
        "' COLLATE NOCASE\n        OR romaji_name = '",
        "' COLLATE NOCASE\n        OR native_name = '",
        "' COLLATE NOCASE;\n        ",
    );
    let st = SqlStatement { sql, params: Vec::new() };
    assert(st@.params =~= Seq::<ParamView>::empty());
    st
}

/// The query whether an anime with a title equal to `name` exists.
pub fn anime_by_name_exists_statement(name: &str) -> (st: SqlStatement)
    ensures
        st@ == anime_by_name_exists_view(name@),
{
    let mut params: Vec<SqlValue> = Vec::new();
    params.push(text_value(name));
    let st = SqlStatement {
        sql: String::from_str("\n        SELECT EXISTS( SELECT 1 FROM anime \n        WHERE english_name = :name COLLATE NOCASE\n        OR romaji_name = :name COLLATE NOCASE\n        OR native_name = :name COLLATE NOCASE);\n    "),
        params,
    };
    assert(st@.params =~= seq![ParamView::Text(name@)]);
    st
}

// ---------------------------------------------------------------- changing

pub open spec fn add_cards_to_current_sql() -> Seq<char> {
    "UPDATE anime SET anki_flashcards=COALESCE(anki_flashcards,0) + ?1 WHERE is_current=1"@
}

const CARDS_BY_NAME_WHERE: &'static str = "\n            where english_name = :name COLLATE NOCASE\n            OR romaji_name = :name COLLATE NOCASE\n            OR native_name = :name COLLATE NOCASE;\n            ";

/// The condition of the named flashcard changes: any of the three titles.
pub open spec fn cards_by_name_where_sql() -> Seq<char> {
    "\n            where english_name = :name COLLATE NOCASE\n            OR romaji_name = :name COLLATE NOCASE\n            OR native_name = :name COLLATE NOCASE;\n            "@
}

pub open spec fn add_cards_by_name_sql() -> Seq<char> {
    "UPDATE anime \n            SET anki_flashcards= COALESCE(anki_flashcards,0) + :number"@ + cards_by_name_where_sql()
}

pub open spec fn set_cards_by_name_sql() -> Seq<char> {
    "UPDATE anime \n            SET anki_flashcards= :number"@ + cards_by_name_where_sql()
}

pub open spec fn set_cards_of_current_sql() -> Seq<char> {
    "UPDATE anime SET anki_flashcards=?1 WHERE is_current=1"@
}

/// Changing the flashcard count of the named anime, or of the current one:
/// adding to it (a missing count counts as 0) or setting it.
pub open spec fn add_card_mutation_view(add_type: CardsCommand, number: u32, name: Option<Seq<char>>) -> StatementView {
    match (add_type, name) {
        (CardsCommand::Add, None) => StatementView {
            sql: add_cards_to_current_sql(),
            params: seq![ParamView::Integer(number as int)],
        },
        (CardsCommand::Add, Some(n)) => StatementView {
            sql: add_cards_by_name_sql(),
            params: seq![ParamView::Integer(number as int), ParamView::Text(n)],
        },
        (CardsCommand::Total, Some(n)) => StatementView {
            sql: set_cards_by_name_sql(),
            params: seq![ParamView::Integer(number as int), ParamView::Text(n)],
        },
        (CardsCommand::Total, None) => StatementView {
            sql: set_cards_of_current_sql(),
            params: seq![ParamView::Integer(number as int)],
        },
    }
}

/// The statement that changes the number of flashcards made from an anime.
pub fn add_card_mutation_statement(add_type: CardsCommand, number_of_cards: u32, name: Option<&str>) -> (st: SqlStatement)
    ensures
        st@ == add_card_mutation_view(add_type, number_of_cards, opt_text(name)),
{
    let mut params: Vec<SqlValue> = Vec::new();
    params.push(SqlValue::Integer(number_of_cards as i64));
    let sql = match (add_type, name) {
        (CardsCommand::Add, None) => String::from_str("UPDATE anime SET anki_flashcards=COALESCE(anki_flashcards,0) + ?1 WHERE is_current=1"),
        (CardsCommand::Add, Some(n)) => {
            params.push(text_value(n));
            let mut t = String::from_str("UPDATE anime \n            SET anki_flashcards= COALESCE(anki_flashcards,0) + :number");
            t.append(CARDS_BY_NAME_WHERE);
            t
        },
        (CardsCommand::Total, Some(n)) => {
            params.push(text_value(n));
            let mut t = String::from_str("UPDATE anime \n            SET anki_flashcards= :number");
            t.append(CARDS_BY_NAME_WHERE);
            t
        },
        (CardsCommand::Total, None) => String::from_str("UPDATE anime SET anki_flashcards=?1 WHERE is_current=1"),
    };
    let st = SqlStatement { sql, params };
    assert(st@.params =~= add_card_mutation_view(add_type, number_of_cards, opt_text(name)).params);
    st
}

/// The condition of an episode change: the anime with a title equal to
/// `name` (written into the text), or the current one.
pub open spec fn episode_where_text(name: Option<Seq<char>>) -> Seq<char> {
    match name {
        Some(n) => by_name_text(
            "WHERE english_name = '"@,
            n,
            "' COLLATE NOCASE\n            OR romaji_name = '"@,
            "' COLLATE NOCASE\n            OR native_name = '"@,
            "' COLLATE NOCASE\n           ; "@,
        ),
        None => "WHERE is_current=1;"@,
    }
}

/// The assignment of an episode change: a given number wins over the kind of
/// change; otherwise one up or one down from the progress (missing counts as
/// 0); `SetTo` without a number assigns nothing.
pub open spec fn episode_set_text(mutation: EpisodeMutation, number: Option<u16>) -> Seq<char> {
    match (mutation, number) {
        (_, Some(n)) => "SET episode_progress = "@ + decimal_digits(n as nat),
        (EpisodeMutation::Add, None) => "SET episode_progress = COALESCE(episode_progress,0) + 1"@,
        (EpisodeMutation::Subtract, None) => "SET episode_progress = COALESCE(episode_progress,0) - 1"@,
        (_, None) => Seq::empty(),
    }
}

/// Setting the progress to a number writes that number: the assignment ends
/// in the decimal digits that denote it.
pub proof fn lemma_episode_set_writes_number(mutation: EpisodeMutation, n: u16)
    ensures
        episode_set_text(mutation, Some(n)) == "SET episode_progress = "@ + decimal_digits(n as nat),
        crate::text::digits_value(decimal_digits(n as nat)) == n,
{
    crate::text::lemma_decimal_digits_value(n as nat);
}

pub open spec fn episode_mutation_view(mutation: EpisodeMutation, name: Option<Seq<char>>, number: Option<u16>) -> StatementView {
    bare("UPDATE anime"@ + "\n"@ + episode_set_text(mutation, number) + "\n"@ + episode_where_text(name))
}

/// The statement that changes the episode progress of an anime.
pub fn episode_mutation_statement(mutation: EpisodeMutation, name: Option<&str>, number: Option<u16>) -> (st: SqlStatement)
    ensures
        st@ == episode_mutation_view(mutation, opt_text(name), number),
{
    let where_clause = match name {
        Some(n) => by_name(
            "WHERE english_name = '",
            n,
            "' COLLATE NOCASE\n            OR romaji_name = '",
            "' COLLATE NOCASE\n            OR native_name = '",
            "' COLLATE NOCASE\n           ; ",
        ),
        None => String::from_str("WHERE is_current=1;"),
    };
    let set_clause = match (mutation, number) {
        (_, Some(n)) => {
            let mut s = String::from_str("SET episode_progress = ");
            let digits = decimal_text(n as u64);
            s.append(digits.as_str());
            s
        },
        (EpisodeMutation::Add, None) => String::from_str("SET episode_progress = COALESCE(episode_progress,0) + 1"),
        (EpisodeMutation::Subtract, None) => String::from_str("SET episode_progress = COALESCE(episode_progress,0) - 1"),
        (_, None) => String::new(),
    };
    let mut sql = String::from_str("UPDATE anime");
    sql.append("\n");
    sql.append(set_clause.as_str());
    sql.append("\n");
    sql.append(where_clause.as_str());
    let st = SqlStatement { sql, params: Vec::new() };
    assert(st@.params =~= Seq::<ParamView>::empty());
    st
}

pub open spec fn remove_current_sql() -> Seq<char> {
    "UPDATE anime SET is_current = 0 WHERE is_current = 1;"@
}

/// The statement that takes the current mark from every anime.
pub fn remove_current_statement() -> (st: SqlStatement)
    ensures
        st@ == bare(remove_current_sql()),
{
    bare_statement("UPDATE anime SET is_current = 0 WHERE is_current = 1;")
}

/// Marking the anime with a title equal to `name` (written into the text) as
/// current, and as being watched.
pub open spec fn set_current_view(name: Seq<char>) -> StatementView {
    bare(
        "\n        UPDATE anime SET is_current = 1,\n        watch_status = '"@ + WatchStatus::Watching.text()
            + by_name_text(
            "'\n        WHERE english_name = '"@,
            name,
            "' COLLATE NOCASE\n        OR romaji_name = '"@,
            "' COLLATE NOCASE \n        OR native_name = '"@,
            "' COLLATE NOCASE;\n        "@,
        ),
    )
}

/// The statement that makes an anime the current one.
pub fn set_current_statement(name: &str) -> (st: SqlStatement)
    ensures
        st@ == set_current_view(name@),
{
    let watching_status = WatchStatus::Watching.to_text();
    let mut sql = String::from_str("\n        UPDATE anime SET is_current = 1,\n        watch_status = '");
    sql.append(watching_status.as_str());
    let rest = by_name(
        "'\n        WHERE english_name = '",
        name,
        "' COLLATE NOCASE\n        OR romaji_name = '",
        "' COLLATE NOCASE \n        OR native_name = '",
        "' COLLATE NOCASE;\n        ",
    );
    sql.append(rest.as_str());
    let st = SqlStatement { sql, params: Vec::new() };
    assert(st@.params =~= Seq::<ParamView>::empty());
    assert(st@.sql =~= set_current_view(name@).sql);
    st
}

/// Whether chrono accepts `date` as a calendar date in the format
/// `%Y-%m-%d`: what `chrono::NaiveDate::parse_from_str(date, "%Y-%m-%d")`
/// returns `Ok` for.
pub uninterp spec fn chrono_parses_ymd(date: Seq<char>) -> bool;

/// Trusted: calls `chrono::NaiveDate::parse_from_str(date, "%Y-%m-%d")` and
/// tells whether it returned `Ok`. The contract claims only that the answer
/// is the named result `chrono_parses_ymd` of the date's characters; which
/// texts chrono accepts is left unsaid.
#[verifier::external_body]
fn is_valid_date(date: &str) -> (r: bool)
    ensures
        r == chrono_parses_ymd(date@),
{
    chrono::NaiveDate::parse_from_str(date, "%Y-%m-%d").is_ok()
}

pub open spec fn date_where_text() -> Seq<char> {
    "\n            WHERE english_name = ?1 COLLATE NOCASE\n            OR romaji_name = ?1 COLLATE NOCASE\n            OR native_name = ?1 COLLATE NOCASE;\n        "@
}

/// Setting the start or completion date of the anime with a title equal to
/// `name`: to the given date when it is valid (an invalid one is refused with
/// `Date`), or to today's date when none is given.
pub open spec fn date_mutation_view(name: Seq<char>, date: Option<Seq<char>>, date_type: DateType, date_valid: bool) -> Result<StatementView, InvalidArgError> {
    match (date_type, date) {
        (DateType::Start, Some(d)) => if date_valid {
            Ok(StatementView {
                sql: "UPDATE anime"@ + "\n"@ + "SET date_started = ?2"@ + "\n"@ + date_where_text(),
                params: seq![ParamView::Text(name), ParamView::Text(d)],
            })
        } else {
            Err(InvalidArgError::Date)
        },
        (DateType::Start, None) => Ok(StatementView {
            sql: "UPDATE anime"@ + "\n"@ + "SET date_started = current_date"@ + "\n"@ + date_where_text(),
            params: seq![ParamView::Text(name)],
        }),
        (DateType::End, Some(d)) => if date_valid {
            Ok(StatementView {
                sql: "UPDATE anime"@ + "\n"@ + "SET date_completed = ?2"@ + "\n"@ + date_where_text(),
                params: seq![ParamView::Text(name), ParamView::Text(d)],
            })
        } else {
            Err(InvalidArgError::Date)
        },
        (DateType::End, None) => Ok(StatementView {
            sql: "UPDATE anime"@ + "\n"@ + "SET date_completed = current_date"@ + "\n"@ + date_where_text(),
            params: seq![ParamView::Text(name)],
        }),
    }
}

/// The statement that sets a date of an anime, given whether the date (when
/// there is one) is valid.
pub fn date_mutation_checked(name: &str, date: Option<&str>, date_type: DateType, date_valid: bool) -> (r: Result<SqlStatement, InvalidArgError>)
    ensures
        step_view(r) == date_mutation_view(name@, opt_text(date), date_type, date_valid),
{
    let mut params: Vec<SqlValue> = Vec::new();
    params.push(text_value(name));
    let set_clause = match (date_type, date) {
        (DateType::Start, Some(d)) => {
            if date_valid {
                params.push(text_value(d));
                "SET date_started = ?2"
            } else {
                return Err(InvalidArgError::Date);
            }
        },
        (DateType::Start, None) => "SET date_started = current_date",
        (DateType::End, Some(d)) => {
            if date_valid {
                params.push(text_value(d));
                "SET date_completed = ?2"
            } else {
                return Err(InvalidArgError::Date);
            }
        },
        (DateType::End, None) => "SET date_completed = current_date",
    };
    let mut sql = String::from_str("UPDATE anime");
    sql.append("\n");
    sql.append(set_clause);
    sql.append("\n");
    sql.append("\n            WHERE english_name = ?1 COLLATE NOCASE\n            OR romaji_name = ?1 COLLATE NOCASE\n            OR native_name = ?1 COLLATE NOCASE;\n        ");
    let st = SqlStatement { sql, params };
    assert(st@.params =~= date_mutation_view(name@, opt_text(date), date_type, date_valid)->Ok_0.params);
    Ok(st)
}

/// Whether a date argument is acceptable: no date (meaning today), or a date
/// that chrono reads in the format `%Y-%m-%d`.
pub open spec fn date_argument_valid(date: Option<Seq<char>>) -> bool {
    match date {
        Some(d) => chrono_parses_ymd(d),
        None => true,
    }
}

/// Checks a date argument.
pub fn date_validity(date: Option<&str>) -> (r: bool)
    ensures
        r == date_argument_valid(opt_text(date)),
{
    match date {
        Some(d) => is_valid_date(d),
        None => true,
    }
}

/// The statement that sets a date of an anime; a given date must be one that
/// chrono reads in the format `%Y-%m-%d`.
pub fn date_mutation_statement(name: &str, date: Option<&str>, date_type: DateType) -> (r: Result<SqlStatement, InvalidArgError>)
    ensures
        step_view(r) == date_mutation_view(name@, opt_text(date), date_type, date_argument_valid(opt_text(date))),
{
    date_mutation_checked(name, date, date_type, date_validity(date))
}

/// Setting the watch status of the anime with a title equal to `name`, or of
/// the current one.
pub open spec fn watch_status_mutation_view(watch_status: WatchStatus, name: Option<Seq<char>>) -> StatementView {
    match name {
        Some(n) => StatementView {
            sql: "UPDATE anime SET watch_status = ?1"@ + "\n"@
                + "\n            WHERE english_name = ?2 COLLATE NOCASE\n            OR romaji_name = ?2 COLLATE NOCASE\n            OR native_name = ?2 COLLATE NOCASE;\n                "@,
            params: seq![ParamView::Text(watch_status.text()), ParamView::Text(n)],
        },
        None => StatementView {
            sql: "UPDATE anime SET watch_status = ?1"@ + "\n"@ + "WHERE is_current = 1"@,
            params: seq![ParamView::Text(watch_status.text())],
        },
    }
}

/// The statement that changes the watch status of an anime.
pub fn watch_status_mutation_statement(watch_status: WatchStatus, name: Option<&str>) -> (st: SqlStatement)
    ensures
        st@ == watch_status_mutation_view(watch_status, opt_text(name)),
{
    let mut params: Vec<SqlValue> = Vec::new();
    params.push(SqlValue::Text(watch_status.to_text()));
    let footer = match name {
        Some(n) => {
            params.push(text_value(n));
            "\n            WHERE english_name = ?2 COLLATE NOCASE\n            OR romaji_name = ?2 COLLATE NOCASE\n            OR native_name = ?2 COLLATE NOCASE;\n                "
        },
        None => "WHERE is_current = 1",
    };
    let mut sql = String::from_str("UPDATE anime SET watch_status = ?1");
    sql.append("\n");
    sql.append(footer);
    let st = SqlStatement { sql, params };
    assert(st@.params =~= watch_status_mutation_view(watch_status, opt_text(name)).params);
    st
}

} // verus!
