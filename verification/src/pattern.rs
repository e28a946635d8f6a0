//! The regular-expression engine, as far as this crate relies on it.
//!
//! The functions of this file call into the `regex` crate. Their contracts
//! are believed, not proved: each states what the engine does, and the rest of
//! the crate is verified against these statements.

use vstd::prelude::*;

verus! {

/// A compiled expression of the `regex` crate. Its inside is not visible to
/// the verifier.
#[verifier::external_type_specification]
#[verifier::external_body]
pub struct ExRegex(regex::Regex);

/// The error that `regex::Regex::new` gives for a pattern it cannot compile.
#[verifier::external_type_specification]
#[verifier::external_body]
pub struct ExRegexError(regex::Error);

/// The pattern text that a compiled expression was built from: what
/// `Regex::as_str` returns for it.
pub uninterp spec fn pattern_of(re: regex::Regex) -> Seq<char>;

/// Whether `regex::Regex::new` compiles `pattern`. The engine decides by the
/// pattern's syntax and by the size of its compiled form, under a
/// configuration that is fixed in the engine's code.
pub uninterp spec fn compiles(pattern: Seq<char>) -> bool;

/// The text of capture group `group` in the leftmost match of the expression
/// `re` in `haystack`, as `Regex::captures` followed by `Captures::get(group)`
/// finds it; `None` where the expression does not match, has no such group, or
/// the group took no part in the match. It is a matter of the expression, not
/// of its pattern text alone: the options an expression was built with change
/// what it matches.
pub uninterp spec fn captures_of(re: regex::Regex, haystack: Seq<char>, group: nat) -> Option<
    Seq<char>,
>;

/// What [`captures_of`] is for the expression that `regex::Regex::new`
/// compiles from `pattern`, with the options that `Regex::new` fixes.
pub uninterp spec fn capture_text(pattern: Seq<char>, haystack: Seq<char>, group: nat) -> Option<
    Seq<char>,
>;

/// `re` is an expression as `regex::Regex::new` compiles it from `pattern`: it
/// remembers that pattern, and captures what the pattern captures under the
/// options of `Regex::new`.
pub open spec fn compiled_from(re: regex::Regex, pattern: Seq<char>) -> bool {
    &&& pattern_of(re) == pattern
    &&& forall|haystack: Seq<char>, group: nat| #[trigger]
        captures_of(re, haystack, group) == capture_text(pattern, haystack, group)
}

/// Why a pattern could not be compiled.
#[derive(Debug)]
pub enum PatternError {
    /// The pattern is not a well-formed expression; the text says where.
    Syntax(String),
    /// The compiled expression would exceed the size limit given.
    TooBig(usize),
    /// Any other reason the engine may report.
    Other,
}

/// Calls `regex::Regex::new`. Claims that it succeeds exactly on the patterns
/// that [`compiles`] names, and that the expression it gives remembers the
/// pattern and captures what [`capture_text`] names for that pattern.
#[verifier::external_body]
pub(crate) fn compile(pattern: &str) -> (r: Result<regex::Regex, regex::Error>)
    ensures
        r is Ok <==> compiles(pattern@),
        r matches Ok(re) ==> pattern_of(re) == pattern@ && forall|haystack: Seq<char>, group: nat|
            #[trigger] captures_of(re, haystack, group) == capture_text(pattern@, haystack, group),
{
    regex::Regex::new(pattern)
}

/// Calls `regex::Regex::as_str`. Claims that the text is the one
/// [`pattern_of`] names for the expression.
#[verifier::external_body]
pub(crate) fn source(re: &regex::Regex) -> (text: &str)
    ensures
        text@ == pattern_of(*re),
{
    re.as_str()
}

/// Calls `regex::Regex::captures` and hands out the text of one group of the
/// match. Claims that the outcome is the one [`captures_of`] names for the
/// expression, the haystack and the group.
#[verifier::external_body]
pub(crate) fn capture<'h>(re: &regex::Regex, haystack: &'h str, group: usize) -> (r: Option<
    &'h str,
>)
    ensures
        match r {
            Some(text) => captures_of(*re, haystack@, group as nat) == Some(text@),
            None => captures_of(*re, haystack@, group as nat) is None,
        },
{
    re.captures(haystack).and_then(|found| found.get(group)).map(|m| m.as_str())
}

/// Tells the variants of `regex::Error` apart and moves their fields over.
/// Claims nothing of the outcome.
#[verifier::external_body]
pub(crate) fn pattern_error(e: regex::Error) -> PatternError {
    match e {
        regex::Error::Syntax(text) => PatternError::Syntax(text),
        regex::Error::CompiledTooBig(limit) => PatternError::TooBig(limit),
        _ => PatternError::Other,
    }
}

} // verus!
