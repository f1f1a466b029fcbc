//! Searching a text for a pattern. The search itself is the work of the
//! `regex` crate and is taken on trust; this module gives its result a name
//! and turns its error into one of the crate's own.

use vstd::prelude::*;
use crate::error::AdapterError;

verus! {

/// The error with which `regex` rejects a pattern. Nothing is known of its
/// contents.
#[verifier::external_type_specification]
#[verifier::external_body]
pub struct ExRegexError(regex::Error);

/// What a search of `haystack` for `pattern` finds.
///
/// `None` where the pattern is rejected. Otherwise one entry for each match,
/// in the order in which the matches stand in the haystack; an entry holds
/// the text of each capture group, the whole match first, and `None` for a
/// group that took no part in the match.
pub uninterp spec fn regex_captures(
    pattern: Seq<char>,
    haystack: Seq<char>,
) -> Option<Seq<Seq<Option<Seq<char>>>>>;

/// Compiles `pattern` with `regex::Regex::new` and collects what
/// `Regex::captures_iter` yields on `haystack`, each group of each match
/// (`Captures::iter`) as the text that `Match::as_str` gives.
///
/// Trusted: the search is a function of the pattern and the haystack alone,
/// so its outcome is the one that [`regex_captures`] names, and it fails
/// exactly where the pattern is rejected. Nothing else is claimed of it.
#[verifier::external_body]
fn search(pattern: &str, haystack: &str) -> (r: Result<Vec<Vec<Option<String>>>, regex::Error>)
    ensures
        match r {
            Ok(found) => regex_captures(pattern@, haystack@) == Some(found.deep_view()),
            Err(_) => regex_captures(pattern@, haystack@) is None,
        },
{
    let re = regex::Regex::new(pattern)?;
    Ok(
        re.captures_iter(haystack).map(
            |c| c.iter().map(|g| g.map(|m| m.as_str().to_string())).collect(),
        ).collect(),
    )
}

/// All matches of `pattern` in `haystack` with their capture groups.
///
/// Fails with [`AdapterError::InvalidPattern`] exactly where the pattern is
/// rejected.
pub fn find_captures(
    pattern: &str,
    haystack: &str,
) -> (r: Result<Vec<Vec<Option<String>>>, AdapterError>)
    ensures
        match r {
            Ok(found) => regex_captures(pattern@, haystack@) == Some(found.deep_view()),
            Err(e) => (e == AdapterError::InvalidPattern
                && regex_captures(pattern@, haystack@) is None),
        },
{
    match search(pattern, haystack) {
        Ok(found) => Ok(found),
        Err(_) => Err(AdapterError::InvalidPattern),
    }
}

/// The text of capture group `index` of one match; empty where the match
/// has no such group or the group took no part in it.
pub open spec fn group_text(groups: Seq<Option<Seq<char>>>, index: int) -> Seq<char> {
    if 0 <= index < groups.len() {
        match groups[index] {
            Some(text) => text,
            None => Seq::empty(),
        }
    } else {
        Seq::empty()
    }
}

/// The text of capture group `index` of one match; empty where the match
/// has no such group or the group took no part in it.
pub fn group(groups: &Vec<Option<String>>, index: usize) -> (text: String)
    ensures
        text@ == group_text(groups.deep_view(), index as int),
{
    if index < groups.len() {
        match &groups[index] {
            Some(text) => text.clone(),
            None => String::new(),
        }
    } else {
        String::new()
    }
}

} // verus!
