//! Regular expressions, as the `regex` crate compiles and runs them.
//!
//! A [`Pattern`] is an expression that `Regex::new` compiled, and nothing
//! else: only [`regex_new`] makes one, so that the text it was compiled from
//! decides what it matches. An expression built otherwise, with options that
//! its text does not show, cannot become a `Pattern`.
//!
//! What the crate does is not proved here. Each trusted contract states what
//! the crate documents of one of its functions, over three names: whether a
//! text compiles, the text that a compiled expression was made from, and
//! whether the expression compiled from a text finds a match in another.

use regex::Regex;
use vstd::prelude::*;

verus! {

/// `regex::Regex`, a compiled regular expression: opaque to the verifier.
#[verifier::external_type_specification]
#[verifier::external_body]
pub struct ExRegex(regex::Regex);

/// `regex::Error`, why a pattern did not compile: opaque to the verifier.
#[verifier::external_type_specification]
#[verifier::external_body]
pub struct ExRegexError(regex::Error);

/// Whether `Regex::new` accepts `pattern`, under the size limit that the
/// crate sets by itself.
pub uninterp spec fn regex_compiles(pattern: Seq<char>) -> bool;

/// The text that `re` was compiled from: what `Regex::as_str` returns.
pub uninterp spec fn regex_source(re: Regex) -> Seq<char>;

/// Whether the expression that `Regex::new` compiles from `pattern` finds a
/// match anywhere in `text`: what `Regex::is_match` returns for it.
pub uninterp spec fn regex_matches(pattern: Seq<char>, text: Seq<char>) -> bool;

/// A regular expression compiled by `Regex::new` from its source.
#[derive(Debug)]
pub struct Pattern {
    regex: Regex,
}

impl View for Pattern {
    type V = Seq<char>;

    /// The source of the expression.
    closed spec fn view(&self) -> Seq<char> {
        regex_source(self.regex)
    }
}

/// `Regex::new`: compiles `pattern`. It succeeds on the texts that compile,
/// and the expression it returns has `pattern` as its source.
#[verifier::external_body]
pub(crate) fn regex_new(pattern: &str) -> (r: Result<Pattern, regex::Error>)
    ensures
        r is Ok <==> regex_compiles(pattern@),
        r is Ok ==> r->Ok_0@ == pattern@,
{
    match Regex::new(pattern) {
        Ok(regex) => Ok(Pattern { regex }),
        Err(e) => Err(e),
    }
}

/// `Regex::as_str`: the text that the expression was compiled from.
#[verifier::external_body]
pub(crate) fn regex_as_str(pattern: &Pattern) -> (r: &str)
    ensures
        r@ == pattern@,
{
    pattern.regex.as_str()
}

/// `Regex::is_match`: whether the expression finds a match anywhere in
/// `text`. The expression was compiled by `Regex::new`, so its source and
/// `text` decide.
#[verifier::external_body]
pub(crate) fn regex_is_match(pattern: &Pattern, text: &str) -> (r: bool)
    ensures
        r == regex_matches(pattern@, text@),
{
    pattern.regex.is_match(text)
}

/// `Display` of `regex::Error`, through `to_string`: the text that says why
/// a pattern did not compile.
#[verifier::external_body]
pub(crate) fn regex_error_text(error: &regex::Error) -> (r: String) {
    error.to_string()
}

/// `Clone::clone` of `Regex`: an expression with the same source.
pub assume_specification[ <regex::Regex as Clone>::clone ](re: &regex::Regex) -> (r: regex::Regex)
    ensures
        regex_source(r) == regex_source(*re),
;

impl Clone for Pattern {
    fn clone(&self) -> (r: Pattern)
        ensures
            r@ == self@,
    {
        Pattern { regex: self.regex.clone() }
    }
}

impl Pattern {
    /// The text that the expression was compiled from.
    pub fn as_str(&self) -> (r: &str)
        ensures
            r@ == self@,
    {
        regex_as_str(self)
    }

    /// Whether the expression finds a match anywhere in `text`.
    pub fn is_match(&self, text: &str) -> (r: bool)
        ensures
            r == regex_matches(self@, text@),
    {
        regex_is_match(self, text)
    }
}

} // verus!
