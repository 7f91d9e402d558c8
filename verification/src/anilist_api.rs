//! The body of the search request sent to the AniList GraphQL API.
use vstd::prelude::*;

verus! {

/// The GraphQL query that searches AniList for anime by title.
pub const SEARCH_QUERY: &'static str = "\nquery ($search: String!) { Page {\n        media(search: $search, type: ANIME) {\n            id\n            title {\n                native\n                english\n                romaji\n            }\n            siteUrl\n            episodes\n            type\n        }\n    }\n}\n";

/// The JSON text of a string value as serde_json writes it: the characters
/// between double quotes, with quotes, backslashes and control characters
/// escaped.
pub uninterp spec fn json_string_text(s: Seq<char>) -> Seq<char>;

/// A character that JSON writes as it is inside a string.
pub open spec fn plain_json_char(c: char) -> bool {
    c != '"' && c != '\\' && (c as u32) >= 0x20
}

/// Trusted: the compact text of `serde_json::Value::String(s)`, through its
/// `Display` (`to_string`). The contract claims that the result is the named
/// result `json_string_text` of the characters, and, as serde_json's
/// `format_escaped_str` shows, that a string with no quote, backslash or
/// control character is written between double quotes as it is. The escape
/// sequences of the other characters are left unsaid.
#[verifier::external_body]
fn json_string(s: &str) -> (r: String)
    ensures
        r@ == json_string_text(s@),
        (forall|i: int| 0 <= i < s@.len() ==> plain_json_char(#[trigger] s@[i])) ==> r@ == seq!['"'] + s@ + seq!['"'],
{
    serde_json::Value::String(s.to_owned()).to_string()
}

/// The compact JSON object `{"query": q, "variables": {"search": t}}` with
/// the JSON texts `q` and `t` of its two strings.
pub open spec fn search_body_text(query_json: Seq<char>, title_json: Seq<char>) -> Seq<char> {
    "{\"query\":"@ + query_json + ",\"variables\":{\"search\":"@ + title_json + "}}"@
}

/// Frames the JSON texts of the query and of the title into the request body.
pub fn frame_search_request(query_json: &str, title_json: &str) -> (body: String)
    ensures
        body@ == search_body_text(query_json@, title_json@),
{
    let mut body = String::from_str("{\"query\":");
    body.append(query_json);
    body.append(",\"variables\":{\"search\":");
    body.append(title_json);
    body.append("}}");
    body
}

/// The body of the request that searches AniList for `title`: the search
/// query, with the title as its `search` variable.
pub fn search_request_body(title: &str) -> (body: String)
    ensures
        body@ == search_body_text(json_string_text(SEARCH_QUERY@), json_string_text(title@)),
{
    let query_json = json_string(SEARCH_QUERY);
    let title_json = json_string(title);
    frame_search_request(query_json.as_str(), title_json.as_str())
}

} // verus!
