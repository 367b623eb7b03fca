//! A matcher for web addresses that goes by a fixed pattern.

use vstd::prelude::*;

verus! {

/// The pattern of a web address: the scheme `http` or `https`, a host of up to 256
/// characters, a dot, and a last label of one to six letters or digits. What stands
/// behind the host is no part of the match.
pub const URL_PATTERN: &'static str =
    r"https?://(www\.)?[-a-zA-Z0-9@:%._+~#=]{1,256}\.[a-zA-Z0-9()]{1,6}";

/// The matches of a pattern in a text, as `regex::Regex::find_iter` yields them, one
/// behind the other and without overlap; `None` where `regex::Regex::new` refuses the
/// pattern.
pub uninterp spec fn pattern_matches(pattern: Seq<char>, text: Seq<char>) -> Option<Seq<Seq<char>>>;

/// Compiles the pattern with `regex::Regex::new` and hands out the text of each match
/// that `regex::Regex::find_iter` yields in `content`. What comes back depends on the
/// pattern and the text alone.
#[verifier::external_body]
fn find_matches(pattern: &str, content: &str) -> (matches: Option<Vec<String>>)
    ensures
        matches.deep_view() == pattern_matches(pattern@, content@),
{
    regex::Regex::new(pattern).ok().map(
        |regex| regex.find_iter(content).map(|found| found.as_str().to_string()).collect(),
    )
}

/// The web addresses that the pattern finds in a text.
pub open spec fn url_strings(text: Seq<char>) -> Seq<Seq<char>> {
    match pattern_matches(URL_PATTERN@, text) {
        Some(matches) => matches,
        None => Seq::empty(),
    }
}

/// Finds all web addresses in a text by [`URL_PATTERN`].
pub fn find_url_strings(content: &str) -> (urls: Vec<String>)
    ensures
        urls.deep_view() == url_strings(content@),
{
    match find_matches(URL_PATTERN, content) {
        Some(matches) => matches,
        None => {
            let none: Vec<String> = Vec::new();
            assert(none.deep_view() =~= Seq::empty());
            none
        },
    }
}

} // verus!
