//! Regular-expression search, done by the `regex` crate.

use crate::text::occurs_in;
use vstd::prelude::*;

verus! {

/// The capture groups of one match: for each group of the pattern, the
/// text it matched, or `None` where the group took no part in the match.
/// Group 0 is the whole match.
pub type Groups = Vec<Option<String>>;

/// All non-overlapping matches of `pattern` in `haystack`, from left to
/// right, each as the texts of its capture groups; `None` where `pattern`
/// does not compile.
pub uninterp spec fn regex_captures(pattern: Seq<char>, haystack: Seq<char>) -> Option<
    Seq<Seq<Option<Seq<char>>>>,
>;

/// The first match of `pattern` in `haystack` as the texts of its capture
/// groups, `Some(None)` where nothing matches, `None` where `pattern` does
/// not compile.
pub uninterp spec fn regex_first_capture(pattern: Seq<char>, haystack: Seq<char>) -> Option<
    Option<Seq<Option<Seq<char>>>>,
>;

/// Whether `groups` can be the groups of a match in `haystack`: group 0,
/// the whole match, is there, and its text stands in `haystack`.
pub open spec fn matched_in(groups: Seq<Option<Seq<char>>>, haystack: Seq<char>) -> bool {
    &&& groups.len() > 0
    &&& groups[0] matches Some(whole)
    &&& occurs_in(haystack, whole)
}

/// `regex::Regex::new` and then `Regex::captures_iter`: compiles `pattern`
/// and searches `haystack` for all its non-overlapping matches. What is
/// found depends on the two texts alone and is handed out as owned
/// strings, one list of groups for each match. `Captures::iter` always
/// gives group 0 first, and `Match::as_str` gives the part of the haystack
/// that matched.
#[verifier::external_body]
pub(crate) fn captures_iter(pattern: &str, haystack: &str) -> (found: Option<Vec<Groups>>)
    ensures
        found.deep_view() == regex_captures(pattern@, haystack@),
        found matches Some(matches) ==> forall|k: int|
            0 <= k < matches.len() ==> matched_in(
                #[trigger] matches.deep_view()[k],
                haystack@,
            ),
{
    let re = regex::Regex::new(pattern).ok()?;
    Some(
        re.captures_iter(haystack)
            .map(|c| c.iter().map(|g| g.map(|m| m.as_str().to_string())).collect())
            .collect(),
    )
}

/// `regex::Regex::new` and then `Regex::captures`: compiles `pattern` and
/// searches `haystack` for its first match. What is found depends on the
/// two texts alone and is handed out as owned strings. `Captures::iter`
/// always gives group 0 first, and `Match::as_str` gives the part of the
/// haystack that matched.
#[verifier::external_body]
pub(crate) fn captures(pattern: &str, haystack: &str) -> (found: Option<Option<Groups>>)
    ensures
        found.deep_view() == regex_first_capture(pattern@, haystack@),
        found matches Some(Some(groups)) ==> matched_in(groups.deep_view(), haystack@),
{
    let re = regex::Regex::new(pattern).ok()?;
    Some(
        re.captures(haystack)
            .map(|c| c.iter().map(|g| g.map(|m| m.as_str().to_string())).collect()),
    )
}

} // verus!
