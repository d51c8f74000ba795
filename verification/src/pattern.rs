//! Regular expressions, evaluated by the `regex` crate. A pattern is held as
//! its source text; each call compiles it and applies it, and the contracts
//! name what `regex` answers.

use regex::Regex;
use vstd::prelude::*;

verus! {

/// Whether `regex::Regex::new` accepts the pattern.
pub uninterp spec fn regex_valid(pattern: Seq<char>) -> bool;

/// What `Regex::is_match` answers for a valid pattern and a text.
pub uninterp spec fn regex_matches(pattern: Seq<char>, text: Seq<char>) -> bool;

/// What `Regex::replace` returns: the text with the first match replaced.
pub uninterp spec fn regex_replaced_first(
    pattern: Seq<char>,
    text: Seq<char>,
    replacement: Seq<char>,
) -> Seq<char>;

/// What `Regex::replace_all` returns: the text with every match replaced.
pub uninterp spec fn regex_replaced_all(
    pattern: Seq<char>,
    text: Seq<char>,
    replacement: Seq<char>,
) -> Seq<char>;

/// The text of capture group `group` in the first match that
/// `Regex::captures` finds; `None` if there is no match or the group took no
/// part in it.
pub uninterp spec fn regex_capture(pattern: Seq<char>, text: Seq<char>, group: nat) -> Option<
    Seq<char>,
>;

/// The view of an optional string.
pub open spec fn text_of(s: Option<String>) -> Option<Seq<char>> {
    match s {
        Some(s) => Some(s@),
        None => None,
    }
}

/// Compiles `pattern` with `Regex::new`. Says only whether that succeeded.
#[verifier::external_body]
pub(crate) fn is_valid(pattern: &str) -> (b: bool)
    ensures
        b == regex_valid(pattern@),
{
    Regex::new(pattern).is_ok()
}

/// Compiles `pattern` and asks `Regex::is_match` about `text`. `None` where
/// the pattern does not compile; otherwise the answer, which the contract
/// names.
#[verifier::external_body]
pub(crate) fn is_match(pattern: &str, text: &str) -> (r: Option<bool>)
    ensures
        r == if regex_valid(pattern@) {
            Some(regex_matches(pattern@, text@))
        } else {
            None
        },
{
    match Regex::new(pattern) {
        Ok(re) => Some(re.is_match(text)),
        Err(_) => None,
    }
}

/// Compiles `pattern` and calls `Regex::replace` on `text`. `None` where the
/// pattern does not compile; otherwise the new text, which the contract
/// names.
#[verifier::external_body]
pub(crate) fn replace_first(pattern: &str, text: &str, replacement: &str) -> (r: Option<String>)
    ensures
        text_of(r) == if regex_valid(pattern@) {
            Some(regex_replaced_first(pattern@, text@, replacement@))
        } else {
            None
        },
{
    match Regex::new(pattern) {
        Ok(re) => Some(re.replace(text, replacement).into_owned()),
        Err(_) => None,
    }
}

/// Compiles `pattern` and calls `Regex::replace_all` on `text`. `None` where
/// the pattern does not compile; otherwise the new text, which the contract
/// names.
#[verifier::external_body]
pub(crate) fn replace_all(pattern: &str, text: &str, replacement: &str) -> (r: Option<String>)
    ensures
        text_of(r) == if regex_valid(pattern@) {
            Some(regex_replaced_all(pattern@, text@, replacement@))
        } else {
            None
        },
{
    match Regex::new(pattern) {
        Ok(re) => Some(re.replace_all(text, replacement).into_owned()),
        Err(_) => None,
    }
}

/// Compiles `pattern`, calls `Regex::captures` on `text` and picks capture
/// group `group` with `Captures::get`. `None` where the pattern does not
/// compile, nothing matches, or the group took no part in the match.
#[verifier::external_body]
pub(crate) fn capture(pattern: &str, text: &str, group: usize) -> (r: Option<String>)
    ensures
        text_of(r) == if regex_valid(pattern@) {
            regex_capture(pattern@, text@, group as nat)
        } else {
            None
        },
{
    match Regex::new(pattern) {
        Ok(re) => re.captures(text).and_then(|c| c.get(group)).map(|m| m.as_str().to_string()),
        Err(_) => None,
    }
}

} // verus!
