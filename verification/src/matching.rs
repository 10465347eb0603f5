//! The match evaluator: maps an entry's name and path plus a typed query to an
//! optional relevance score, trying fuzzy, regex and substring rules in
//! priority order, together with the cheap pre-filter that guards it.

use vstd::prelude::*;
use crate::text::{contains_substring, is_substring};

verus! {

/// Which rule produced a hit; display information only, never used for ranking
/// beyond the score itself.
#[derive(Debug, Clone, Copy, PartialEq, Eq, Structural)]
pub enum MatchType {
    FileName,
    FilePath,
}

/// The score that the fuzzy subsequence algorithm assigns to `pattern` against
/// `choice`, or `None` when there is no fuzzy match. A function of the two
/// strings alone.
pub uninterp spec fn fuzzy_score(choice: Seq<char>, pattern: Seq<char>) -> Option<i64>;

/// The Unicode lowercase form of `s`; a function of the characters alone.
pub uninterp spec fn lower_of(s: Seq<char>) -> Seq<char>;

/// Whether `pattern` compiles as a regular expression that matches somewhere
/// in `text`; a function of the two strings alone. An invalid pattern never
/// matches.
pub uninterp spec fn regex_match_of(pattern: Seq<char>, text: Seq<char>) -> bool;

/// Relies on fuzzy_matcher's `SkimMatcherV2::fuzzy_match` (skim.rs): the
/// smart-case subsequence score, computed from the two strings alone.
#[verifier::external_body]
fn fuzzy_match_score(choice: &str, pattern: &str) -> (r: Option<i64>)
    ensures
        r == fuzzy_score(choice@, pattern@),
{
    fuzzy_matcher::FuzzyMatcher::fuzzy_match(
        &fuzzy_matcher::skim::SkimMatcherV2::default(),
        choice,
        pattern,
    )
}

/// Relies on `str::to_lowercase`: the Unicode lowercase equivalent of the
/// string, computed from its characters alone.
#[verifier::external_body]
fn to_lowercase(s: &str) -> (r: String)
    ensures
        r@ == lower_of(s@),
{
    s.to_lowercase()
}

/// Relies on `regex::Regex::new` and `regex::Regex::is_match`: whether
/// `pattern` is valid regex syntax and matches somewhere in `text`, computed
/// from the two strings alone. A pattern that does not compile is treated as
/// "no regex available", never as an error.
#[verifier::external_body]
fn regex_matches(pattern: &str, text: &str) -> (r: bool)
    ensures
        r == regex_match_of(pattern@, text@),
{
    match regex::Regex::new(pattern) {
        Ok(re) => re.is_match(text),
        Err(_) => false,
    }
}

/// The evaluator's policy, first success wins: fuzzy match on the name with
/// the algorithm's own score; then a regex match on the full path at a fixed
/// score of 50; then a case-insensitive substring of the path at 40 when the
/// substring also occurs in the name, else 30; otherwise no match.
pub open spec fn evaluate_spec(name: Seq<char>, path: Seq<char>, pattern: Seq<char>) -> Option<
    (i64, MatchType),
> {
    match fuzzy_score(name, pattern) {
        Some(s) => Some((s, MatchType::FileName)),
        None => if regex_match_of(pattern, path) {
            Some((50i64, MatchType::FilePath))
        } else if is_substring(lower_of(pattern), lower_of(path)) {
            if is_substring(lower_of(pattern), lower_of(name)) {
                Some((40i64, MatchType::FilePath))
            } else {
                Some((30i64, MatchType::FilePath))
            }
        } else {
            None
        },
    }
}

/// The cheap pre-filter: an entry has a chance of matching when the lowercase
/// query occurs in the lowercase name or path, or the query matches the path
/// as a regex, or the name matches fuzzily.
pub open spec fn prefilter_spec(name: Seq<char>, path: Seq<char>, pattern: Seq<char>) -> bool {
    ||| is_substring(lower_of(pattern), lower_of(name))
    ||| is_substring(lower_of(pattern), lower_of(path))
    ||| regex_match_of(pattern, path)
    ||| fuzzy_score(name, pattern) is Some
}

/// The pre-filter is a superset test: it never rejects an entry that the full
/// evaluator would accept.
pub proof fn lemma_prefilter_superset(name: Seq<char>, path: Seq<char>, pattern: Seq<char>)
    ensures
        evaluate_spec(name, path, pattern) is Some ==> prefilter_spec(name, path, pattern),
{
}

/// Full evaluation of one candidate entry against the query.
pub fn evaluate(name: &str, path: &str, pattern: &str) -> (r: Option<(i64, MatchType)>)
    ensures
        r == evaluate_spec(name@, path@, pattern@),
{
    match fuzzy_match_score(name, pattern) {
        Some(s) => Some((s, MatchType::FileName)),
        None => {
            if regex_matches(pattern, path) {
                Some((50, MatchType::FilePath))
            } else {
                let pattern_lower = to_lowercase(pattern);
                let path_lower = to_lowercase(path);
                if contains_substring(path_lower.as_str(), pattern_lower.as_str()) {
                    let name_lower = to_lowercase(name);
                    if contains_substring(name_lower.as_str(), pattern_lower.as_str()) {
                        Some((40, MatchType::FilePath))
                    } else {
                        Some((30, MatchType::FilePath))
                    }
                } else {
                    None
                }
            }
        },
    }
}

/// Name-only scoring for the local strategy: the fuzzy score when there is
/// one, else a fixed 25 for a case-insensitive substring hit.
pub open spec fn local_score_spec(name: Seq<char>, pattern: Seq<char>) -> Option<i64> {
    match fuzzy_score(name, pattern) {
        Some(s) => Some(s),
        None => if is_substring(lower_of(pattern), lower_of(name))  {
            Some(25i64)
        } else {
            None
        },
    }
}

/// Name-only evaluation of one candidate.
pub fn evaluate_local(name: &str, pattern: &str) -> (r: Option<i64>)
    ensures
        r == local_score_spec(name@, pattern@),
{
    match fuzzy_match_score(name, pattern) {
        Some(s) => Some(s),
        None => {
            let pattern_lower = to_lowercase(pattern);
            let name_lower = to_lowercase(name);
            if contains_substring(name_lower.as_str(), pattern_lower.as_str()) {
                Some(25)
            } else {
                None
            }
        },
    }
}

/// The cheap pre-filter, decided without building a full entry record.
pub fn prefilter(name: &str, path: &str, pattern: &str) -> (r: bool)
    ensures
        r == prefilter_spec(name@, path@, pattern@),
{
    let pattern_lower = to_lowercase(pattern);
    let name_lower = to_lowercase(name);
    if contains_substring(name_lower.as_str(), pattern_lower.as_str()) {
        return true;
    }
    let path_lower = to_lowercase(path);
    if contains_substring(path_lower.as_str(), pattern_lower.as_str()) {
        return true;
    }
    if regex_matches(pattern, path) {
        return true;
    }
    fuzzy_match_score(name, pattern).is_some()
}

} // verus!
