//! Regular-expression searches, made by the `regex` crate.

use vstd::prelude::*;

verus! {

/// The successive non-overlapping matches of `pattern` in `text`, as
/// `regex::Regex::find_iter` yields them, each given as the text it covers.
/// `None` where `regex::Regex::new` rejects the pattern.
pub uninterp spec fn regex_matches(pattern: Seq<char>, text: Seq<char>) -> Option<
    Seq<Seq<char>>,
>;

/// The capture groups of the first match of `pattern` in `text`, as
/// `regex::Regex::captures` finds them: group 0 is the whole match, and a
/// group that took no part in the match is `None`. The outer `None` stands
/// where nothing in the text matches, and where `regex::Regex::new` rejects
/// the pattern.
pub uninterp spec fn regex_captures(pattern: Seq<char>, text: Seq<char>) -> Option<
    Seq<Option<Seq<char>>>,
>;

/// Compiles `pattern` with `regex::Regex::new` and collects what
/// `Regex::find_iter` yields on `text`. Trusted: the result is the one
/// named `regex_matches`.
#[verifier::external_body]
pub(crate) fn find_all(pattern: &str, text: &str) -> (found: Option<Vec<String>>)
    ensures
        found.deep_view() == regex_matches(pattern@, text@),
{
    match regex::Regex::new(pattern) {
        Ok(re) => Some(re.find_iter(text).map(|m| m.as_str().to_owned()).collect()),
        Err(_) => None,
    }
}

/// Compiles `pattern` with `regex::Regex::new` and collects the groups that
/// `Regex::captures` finds in `text`. Trusted: the result is the one named
/// `regex_captures`.
#[verifier::external_body]
pub(crate) fn first_captures(pattern: &str, text: &str) -> (groups: Option<Vec<Option<String>>>)
    ensures
        groups.deep_view() == regex_captures(pattern@, text@),
{
    match regex::Regex::new(pattern) {
        Ok(re) => re.captures(text).map(
            |found| found.iter().map(|group| group.map(|m| m.as_str().to_owned())).collect(),
        ),
        Err(_) => None,
    }
}

} // verus!
