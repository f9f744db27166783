//! The name pattern of an API version directory, matched by the `regex` crate.

use regex::Regex;
use vstd::prelude::*;

verus! {

/// Whether `Regex::new` accepts `pattern`.
pub uninterp spec fn regex_compiles(pattern: Seq<char>) -> bool;

/// Whether the regex compiled from `pattern` finds a match anywhere in
/// `haystack`, as `Regex::is_match` reports it.
pub uninterp spec fn regex_matches(pattern: Seq<char>, haystack: Seq<char>) -> bool;

/// What compiling `pattern` and searching `haystack` with it gives: `None`
/// where the pattern does not compile, else whether a match was found.
pub open spec fn pattern_match(pattern: Seq<char>, haystack: Seq<char>) -> Option<bool> {
    if regex_compiles(pattern) {
        Some(regex_matches(pattern, haystack))
    } else {
        None
    }
}

/// Compiles `pattern` with `regex::Regex::new` and searches `haystack` with
/// `regex::Regex::is_match`.
///
/// Not proved: that the outcome is the one named by [`regex_compiles`] and
/// [`regex_matches`], that is, that it depends on the two strings alone.
#[verifier::external_body]
fn regex_is_match(pattern: &str, haystack: &str) -> (found: Option<bool>)
    ensures
        found is Some <==> regex_compiles(pattern@),
        found is Some ==> found->0 == regex_matches(pattern@, haystack@),
{
    match Regex::new(pattern) {
        Ok(re) => Some(re.is_match(haystack)),
        Err(_) => None,
    }
}

/// The pattern of a version name: the letter `v`, a digit from 1 to 9, then
/// any number of digits, and nothing before or after. What counts as a digit
/// after the first is up to the regex engine's `\d`.
pub const VERSION_PATTERN: &'static str = "^v[1-9]\\d*$";

/// Whether `name` is the name of an API version, judged by
/// [`VERSION_PATTERN`]; `None` where the regex engine refuses the pattern.
pub fn is_version_name(name: &str) -> (found: Option<bool>)
    ensures
        found == pattern_match(VERSION_PATTERN@, name@),
{
    regex_is_match(VERSION_PATTERN, name)
}

} // verus!
