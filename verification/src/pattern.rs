//! Pattern matching, done by the `regex` crate.

use vstd::prelude::*;

verus! {

/// What the `regex` crate captures when it searches `haystack` for `pattern`:
/// `None` where the pattern does not compile or matches nowhere, else the
/// groups of the leftmost match, the whole match first, each group with the
/// text it matched or `None` where it took no part in the match.
pub uninterp spec fn regex_captures(pattern: Seq<char>, haystack: Seq<char>) -> Option<
    Seq<Option<Seq<char>>>,
>;

/// Compiles `pattern` with `regex::Regex::new`, searches `haystack` with
/// `Regex::captures` and copies out what `Captures::iter` yields, each match
/// by `Match::as_str`. Nothing is proved of the matching itself: the result
/// is known only by its name, [`regex_captures`].
#[verifier::external_body]
pub(crate) fn captures(pattern: &str, haystack: &str) -> (groups: Option<Vec<Option<String>>>)
    ensures
        groups.deep_view() == regex_captures(pattern@, haystack@),
{
    let re = regex::Regex::new(pattern).ok()?;
    let caps = re.captures(haystack)?;
    Some(caps.iter().map(|m| m.map(|m| m.as_str().to_string())).collect())
}

} // verus!
