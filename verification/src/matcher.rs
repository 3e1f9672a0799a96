//! The regular-expression engine behind the URI patterns.
//!
//! The engine is the `regex` crate. Nothing here is proved: each function
//! states what the crate documents, over names for what the engine computes.

use regex::Regex;
use vstd::prelude::*;

verus! {

/// The error that the engine reports for a pattern it cannot compile.
#[verifier::external_type_specification]
#[verifier::external_body]
pub struct ExPatternError(regex::Error);

/// Whether the engine compiles `pattern`: its syntax is valid and the compiled
/// program stays within the engine's default size limit.
pub uninterp spec fn regex_valid(pattern: Seq<char>) -> bool;

/// Whether `pattern` compiles and matches somewhere in `text`.
pub uninterp spec fn regex_is_match(pattern: Seq<char>, text: Seq<char>) -> bool;

/// What the capture group called `name` holds in the leftmost match of
/// `pattern` in `text`. `None` when the pattern does not compile, when it
/// matches nowhere, when it has no group of that name, or when the group took
/// no part in the match.
pub uninterp spec fn regex_capture(pattern: Seq<char>, text: Seq<char>, name: Seq<char>) -> Option<
    Seq<char>,
>;

/// `Regex::new`: compiles `pattern` and drops the compiled program. The result
/// is `Ok` exactly for the patterns that `regex_valid` names; otherwise it
/// carries the engine's error.
#[verifier::external_body]
pub(crate) fn check_pattern(pattern: &str) -> (r: Result<(), regex::Error>)
    ensures
        r is Ok == regex_valid(pattern@),
{
    match Regex::new(pattern) {
        Ok(_) => Ok(()),
        Err(e) => Err(e),
    }
}

/// `Regex::is_match` on the compiled `pattern`: whether there is a match
/// anywhere in `text`. A pattern that does not compile matches nothing.
#[verifier::external_body]
pub(crate) fn is_match(pattern: &str, text: &str) -> (r: bool)
    ensures
        r == regex_is_match(pattern@, text@),
{
    match Regex::new(pattern) {
        Ok(re) => re.is_match(text),
        Err(_) => false,
    }
}

/// `Regex::captures` on the compiled `pattern`, then `Captures::name`: the
/// text that the group `name` holds in the leftmost match, copied out.
#[verifier::external_body]
pub(crate) fn capture(pattern: &str, text: &str, name: &str) -> (r: Option<String>)
    ensures
        match r {
            Some(s) => regex_capture(pattern@, text@, name@) == Some(s@),
            None => regex_capture(pattern@, text@, name@) is None,
        },
{
    match Regex::new(pattern) {
        Ok(re) => match re.captures(text) {
            Some(groups) => match groups.name(name) {
                Some(m) => Some(String::from(m.as_str())),
                None => None,
            },
            None => None,
        },
        Err(_) => None,
    }
}

} // verus!
