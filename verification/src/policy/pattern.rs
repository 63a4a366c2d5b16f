//! Patterns over AS paths, which are regular expressions.

use crate::rib::share;
use regex::Regex;
use std::sync::Arc;
use vstd::prelude::*;

verus! {

/// A compiled regular expression.
#[verifier::external_type_specification]
#[verifier::external_body]
pub struct ExRegex(regex::Regex);

/// Why a pattern is no regular expression.
#[verifier::external_type_specification]
#[verifier::external_body]
pub struct ExRegexError(regex::Error);

/// The pattern that a regular expression was compiled from.
pub uninterp spec fn regex_text(r: regex::Regex) -> Seq<char>;

/// Whether a regular expression matches somewhere in a text.
pub uninterp spec fn regex_finds(r: regex::Regex, haystack: Seq<char>) -> bool;

/// Whether the regular expression that a pattern is compiled to matches
/// somewhere in a text.
pub uninterp spec fn pattern_finds(pattern: Seq<char>, haystack: Seq<char>) -> bool;

/// Why a pattern does not compile; nothing where it does.
pub uninterp spec fn pattern_error(pattern: Seq<char>) -> Option<Seq<char>>;

/// The text of an error.
pub uninterp spec fn regex_error_text(e: regex::Error) -> Seq<char>;

/// `Regex::new`: whether a pattern compiles, and the error where it does not,
/// depend on the pattern alone. The expression remembers its pattern, and what
/// it finds in a text depends on pattern and text alone.
#[verifier::external_body]
fn compile(pattern: &str) -> (r: Result<regex::Regex, regex::Error>)
    ensures
        match r {
            Ok(x) => {
                &&& pattern_error(pattern@) is None
                &&& regex_text(x) == pattern@
                &&& forall|h: Seq<char>| regex_finds(x, h) == pattern_finds(pattern@, h)
            },
            Err(e) => pattern_error(pattern@) == Some(regex_error_text(e)),
        },
{
    Regex::new(pattern)
}

/// `Regex::is_match`: whether the expression matches somewhere in the text.
#[verifier::external_body]
fn finds(r: &regex::Regex, haystack: &str) -> (b: bool)
    ensures
        b == regex_finds(*r, haystack@),
{
    r.is_match(haystack)
}

/// `Regex::as_str`: the pattern that the expression was compiled from.
#[verifier::external_body]
fn source(r: &regex::Regex) -> (s: &str)
    ensures
        s@ == regex_text(*r),
{
    r.as_str()
}

/// `Display` of `regex::Error`: the text of the error.
#[verifier::external_body]
fn error_text(e: &regex::Error) -> (s: String)
    ensures
        s@ == regex_error_text(*e),
{
    e.to_string()
}

/// A pattern over AS paths.
#[derive(Debug)]
pub struct AsPathPattern {
    regex: Arc<Regex>,
}

impl View for AsPathPattern {
    type V = Seq<char>;

    closed spec fn view(&self) -> Seq<char> {
        regex_text(*self.regex)
    }
}

impl AsPathPattern {
    /// What the expression finds is what its pattern says.
    #[verifier::type_invariant]
    closed spec fn wf(self) -> bool {
        forall|h: Seq<char>|
            regex_finds(*self.regex, h) == pattern_finds(regex_text(*self.regex), h)
    }

    /// The pattern with the given text, or why there is none.
    pub fn new(pattern: &str) -> (r: Result<Self, String>)
        ensures
            match r {
                Ok(x) => x@ == pattern@ && pattern_error(pattern@) is None,
                Err(e) => pattern_error(pattern@) == Some(e@),
            },
    {
        match compile(pattern) {
            Ok(x) => Ok(AsPathPattern { regex: Arc::new(x) }),
            Err(e) => Err(error_text(&e)),
        }
    }

    /// Whether the pattern matches somewhere in `haystack`.
    pub fn is_match(&self, haystack: &str) -> (b: bool)
        ensures
            b == pattern_finds(self@, haystack@),
    {
        proof {
            use_type_invariant(self);
        }
        finds(&self.regex, haystack)
    }

    pub fn as_str(&self) -> (s: &str)
        ensures
            s@ == self@,
    {
        source(&self.regex)
    }
}

impl Clone for AsPathPattern {
    fn clone(&self) -> (r: Self)
        ensures
            r@ == self@,
    {
        proof {
            use_type_invariant(self);
        }
        AsPathPattern { regex: share(&self.regex) }
    }
}

} // verus!
