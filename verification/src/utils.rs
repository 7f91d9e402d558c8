//! Finding the anime a command is about, and the home-relative export path.
use vstd::prelude::*;
use vstd::string::*;
use crate::db::{
    anime_by_name_exists_statement, anime_by_name_exists_view, anime_query_by_name_statement,
    anime_query_by_name_view, bare, current_exists_sql, current_exists_statement, opt_text,
    query_current_sql, query_current_statement, step_view, SqlStatement, StatementView,
};
use crate::error_ctrl::InvalidArgError;

verus! {

/// The query whether the anime a command names exists: by title when a name
/// is given, otherwise whether some anime is current.
pub open spec fn exists_query_view(name: Option<Seq<char>>) -> StatementView {
    match name {
        Some(n) => anime_by_name_exists_view(n),
        None => bare(current_exists_sql()),
    }
}

/// The query for the anime a command names, once the existence query has
/// answered: by title, or the current one. A missing anime is refused with
/// `InvalidName` when it was named and with `Current` otherwise.
pub open spec fn lookup_view(name: Option<Seq<char>>, exists: bool) -> Result<StatementView, InvalidArgError> {
    match name {
        Some(n) => if exists {
            Ok(anime_query_by_name_view(n))
        } else {
            Err(InvalidArgError::InvalidName)
        },
        None => if exists {
            Ok(bare(query_current_sql()))
        } else {
            Err(InvalidArgError::Current)
        },
    }
}

/// The existence query for the anime a command names.
pub fn exists_statement(name: Option<&str>) -> (st: SqlStatement)
    ensures
        st@ == exists_query_view(opt_text(name)),
{
    match name {
        Some(n) => anime_by_name_exists_statement(n),
        None => current_exists_statement(),
    }
}

/// The query that reads the anime a command names, or the error when the
/// existence query said it is missing.
pub fn lookup_statement(name: Option<&str>, exists: bool) -> (r: Result<SqlStatement, InvalidArgError>)
    ensures
        step_view(r) == lookup_view(opt_text(name), exists),
{
    match name {
        Some(n) => if exists {
            Ok(anime_query_by_name_statement(n))
        } else {
            Err(InvalidArgError::InvalidName)
        },
        None => if exists {
            Ok(query_current_statement())
        } else {
            Err(InvalidArgError::Current)
        },
    }
}

/// Whether a path names a place under the home directory: it is `~`, or it
/// begins with `~/` (a path whose first component is `~`).
pub open spec fn is_home_relative(p: Seq<char>) -> bool {
    p == seq!['~'] || (p.len() >= 2 && p[0] == '~' && p[1] == '/')
}

/// The path without every leading `~/`.
pub open spec fn strip_home_prefixes(p: Seq<char>) -> Seq<char>
    decreases p.len(),
{
    if p.len() >= 2 && p[0] == '~' && p[1] == '/' {
        strip_home_prefixes(p.subrange(2, p.len() as int))
    } else {
        p
    }
}

/// The part of a home-relative export path that lies under the home
/// directory, or `None` when the path is not home-relative.
pub open spec fn home_relative_part(p: Seq<char>) -> Option<Seq<char>> {
    if is_home_relative(p) {
        Some(strip_home_prefixes(p))
    } else {
        None
    }
}

/// Stripping the leading `~/` leaves none, and what was stripped is a run of
/// `~/`.
pub proof fn lemma_strip_home_prefixes(p: Seq<char>)
    ensures
        !(strip_home_prefixes(p).len() >= 2 && strip_home_prefixes(p)[0] == '~'
            && strip_home_prefixes(p)[1] == '/'),
        strip_home_prefixes(p).len() <= p.len(),
        p.subrange(p.len() - strip_home_prefixes(p).len(), p.len() as int) == strip_home_prefixes(p),
        (p.len() - strip_home_prefixes(p).len()) % 2 == 0,
        forall|i: int| 0 <= i < p.len() - strip_home_prefixes(p).len() ==> #[trigger] p[i] == if i % 2 == 0 { '~' } else { '/' },
    decreases p.len(),
{
    if p.len() >= 2 && p[0] == '~' && p[1] == '/' {
        let q = p.subrange(2, p.len() as int);
        lemma_strip_home_prefixes(q);
        assert(p.subrange(p.len() - strip_home_prefixes(p).len(), p.len() as int) =~= q.subrange(q.len() - strip_home_prefixes(q).len(), q.len() as int));
        assert forall|i: int| 0 <= i < p.len() - strip_home_prefixes(p).len() implies #[trigger] p[i] == if i % 2 == 0 { '~' } else { '/' } by {
            if i >= 2 {
                assert(p[i] == q[i - 2]);
            }
        }
    } else {
        assert(p.subrange(0, p.len() as int) =~= p);
    }
}

/// The part under the home directory of an export path given as `~/...`
/// (what `trim_start_matches("~/")` leaves of it), or `None` when the path
/// does not start from the home directory.
pub fn home_relative_path(path: &str) -> (r: Option<String>)
    ensures
        match r {
            Some(s) => home_relative_part(path@) == Some(s@),
            None => home_relative_part(path@) is None,
        },
{
    let n = path.unicode_len();
    let home_relative = if n == 1 {
        path.get_char(0) == '~'
    } else if n >= 2 {
        path.get_char(0) == '~' && path.get_char(1) == '/'
    } else {
        false
    };
    if !home_relative {
        proof {
            if path@ == seq!['~'] {
                assert(path@[0] == '~');
            }
        }
        return None;
    }
    let mut rest: &str = path;
    loop
        invariant
            strip_home_prefixes(rest@) == strip_home_prefixes(path@),
        ensures
            rest@ == strip_home_prefixes(path@),
        decreases rest@.len(),
    {
        let m = rest.unicode_len();
        if m >= 2 && rest.get_char(0) == '~' && rest.get_char(1) == '/' {
            rest = rest.substring_char(2, m);
        } else {
            break;
        }
    }
    proof {
        if n == 1 {
            assert(path@ =~= seq!['~']);
        }
    }
    Some(String::from_str(rest))
}

} // verus!
