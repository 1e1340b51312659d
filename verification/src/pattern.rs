//! Compiled patterns. The regular-expression engine is the `regex` crate; this
//! module states what the rest of the library relies on from it.

use regex::Regex;
use vstd::prelude::*;

verus! {

/// A compiled pattern of the `regex` crate. Nothing inside it is visible to
/// the verifier; `regex_source` and `regex_accepts` name what the library reads from it.
#[verifier::external_type_specification]
#[verifier::external_body]
pub struct ExRegex(Regex);

/// The text that a compiled pattern was built from, as `Regex::as_str` reports it.
pub uninterp spec fn regex_source(regex: Regex) -> Seq<char>;

/// Whether a compiled pattern finds a match anywhere in `text`, as `Regex::is_match` reports it.
pub uninterp spec fn regex_accepts(regex: Regex, text: Seq<char>) -> bool;

/// What `Regex::new` has against a pattern text: `None` where the text compiles,
/// else the engine's own message.
pub uninterp spec fn rejection(pattern: Seq<char>) -> Option<Seq<char>>;

/// Calls `Regex::new`. Trusted: the outcome depends on the pattern text alone; a
/// compiled pattern reports that text as its source; a rejection carries the
/// engine's message, converted to a `String` by its `Display`.
#[verifier::external_body]
pub(crate) fn compile(pattern: &str) -> (res: Result<Regex, String>)
    ensures
        match res {
            Ok(regex) => rejection(pattern@) is None && regex_source(regex) == pattern@,
            Err(message) => rejection(pattern@) == Some(message@),
        },
{
    match Regex::new(pattern) {
        Ok(regex) => Ok(regex),
        Err(error) => Err(format!("{}", error)),
    }
}

/// Calls `Regex::as_str`. Trusted: the result is the pattern's source text.
#[verifier::external_body]
pub(crate) fn source<'a>(regex: &'a Regex) -> (text: &'a str)
    ensures
        text@ == regex_source(*regex),
{
    regex.as_str()
}

/// Calls `Regex::is_match`. Trusted: the result depends on the compiled pattern
/// and the text alone.
#[verifier::external_body]
pub(crate) fn accepts(regex: &Regex, text: &str) -> (found: bool)
    ensures
        found == regex_accepts(*regex, text@),
{
    regex.is_match(text)
}

} // verus!
