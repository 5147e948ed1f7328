//! Regular expressions, as the `regex` crate compiles and runs them.
//!
//! The two calls into the crate are believed, not proved: their contracts
//! state what the crate's documentation says of them, over names for their
//! results. `Pattern` is the only way to a compiled regular expression.

use vstd::prelude::*;

verus! {

/// `regex::Regex`, a compiled regular expression. Nothing is known of what
/// is inside one.
#[verifier::external_type_specification]
#[verifier::external_body]
pub struct ExRegex(regex::Regex);

/// `regex::Error`, the reason why a pattern was refused. Nothing is known of
/// what is inside one.
#[verifier::external_type_specification]
#[verifier::external_body]
pub struct ExRegexError(regex::Error);

/// The pattern text that a compiled regular expression was built from: what
/// `regex::Regex::as_str` returns for it.
pub uninterp spec fn pattern_of(re: regex::Regex) -> Seq<char>;

/// Whether `regex::Regex::new` accepts the text `pattern` and returns a
/// compiled regular expression for it.
pub uninterp spec fn pattern_compiles(pattern: Seq<char>) -> bool;

/// Whether the regular expression that `regex::Regex::new` makes of the text
/// `pattern` matches anywhere in `text`: what `regex::Regex::is_match`
/// returns.
pub uninterp spec fn pattern_matches(pattern: Seq<char>, text: Seq<char>) -> bool;

/// Calls `regex::Regex::new`. Claimed: whether a regex comes back depends on
/// `pattern` alone, and one that comes back was built from `pattern`.
#[verifier::external_body]
fn compile(pattern: &str) -> (r: Result<regex::Regex, regex::Error>)
    ensures
        r is Ok <==> pattern_compiles(pattern@),
        r matches Ok(re) ==> pattern_of(re) == pattern@,
{
    regex::Regex::new(pattern)
}

/// Calls `regex::Regex::is_match` on a regex that `regex::Regex::new` made.
/// Claimed: the answer depends on the pattern that the regex was built from
/// and on `text` alone.
#[verifier::external_body]
fn is_match(re: &regex::Regex, text: &str) -> (r: bool)
    ensures
        r == pattern_matches(pattern_of(*re), text@),
{
    re.is_match(text)
}

/// A regular expression that `regex::Regex::new` compiled, with its default
/// settings. No other regex can be put into one.
pub struct Pattern {
    re: regex::Regex,
}

impl Pattern {
    /// The pattern text that the regular expression was compiled from.
    pub closed spec fn source(&self) -> Seq<char> {
        pattern_of(self.re)
    }

    /// Compiles `pattern`; `None` where the `regex` crate refuses it.
    pub fn new(pattern: &str) -> (r: Option<Pattern>)
        ensures
            r is Some <==> pattern_compiles(pattern@),
            r matches Some(p) ==> p.source() == pattern@,
    {
        match compile(pattern) {
            Ok(re) => Some(Pattern { re }),
            Err(_) => None,
        }
    }

    /// Whether the regular expression matches anywhere in `text`.
    pub fn is_match(&self, text: &str) -> (r: bool)
        ensures
            r == pattern_matches(self.source(), text@),
    {
        is_match(&self.re, text)
    }
}

} // verus!
