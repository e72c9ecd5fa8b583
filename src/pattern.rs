//! Regular-expression matching, done by the `regex` crate.
//!
//! What a match returns is named here and not spelled out: each name stands
//! for what `regex` computes on the given pattern and text, and depends on
//! those values alone.
use vstd::prelude::*;

verus! {

#[verifier::external_type_specification]
#[verifier::external_body]
pub struct ExRegexError(regex::Error);

/// Why a snippet could not be transformed.
#[derive(Debug, Clone, Copy, PartialEq, Eq, Structural)]
pub enum SnippetError {
    /// One of the library's patterns was refused by the regular-expression compiler.
    InvalidPattern,
}

/// The library's own error for a pattern that failed to compile.
pub fn pattern_error(e: regex::Error) -> (r: SnippetError)
    ensures
        r == SnippetError::InvalidPattern,
{
    SnippetError::InvalidPattern
}

/// Whether `regex::Regex::new` accepts the pattern.
pub uninterp spec fn regex_valid(pattern: Seq<char>) -> bool;

/// The capture groups of every non-overlapping match of the pattern in the
/// text, in order; group 0 is the whole match, and a group that did not take
/// part in a match is `None`.
pub uninterp spec fn regex_captures(pattern: Seq<char>, text: Seq<char>) -> Seq<Seq<Option<Seq<char>>>>;

/// The text with every non-overlapping match of the pattern removed.
pub uninterp spec fn regex_removed(pattern: Seq<char>, text: Seq<char>) -> Seq<char>;

/// Whether the pattern matches somewhere in the text.
pub uninterp spec fn regex_matches(pattern: Seq<char>, text: Seq<char>) -> bool;

/// The view of an optional string.
pub open spec fn opt_view(o: Option<String>) -> Option<Seq<char>> {
    match o {
        Some(s) => Some(s@),
        None => None,
    }
}

/// The view of the capture groups of one match.
pub open spec fn groups_view(g: Vec<Option<String>>) -> Seq<Option<Seq<char>>> {
    g@.map_values(|o: Option<String>| opt_view(o))
}

/// The view of the capture groups of several matches.
pub open spec fn captures_view(c: Vec<Vec<Option<String>>>) -> Seq<Seq<Option<Seq<char>>>> {
    c@.map_values(|g: Vec<Option<String>>| groups_view(g))
}

/// Relies on `regex::Regex::new` and `Regex::captures_iter`: compiles the
/// pattern and lists the groups of each match, with `Captures::iter`.
#[verifier::external_body]
pub(crate) fn captures_all(pattern: &str, text: &str) -> (r: Result<Vec<Vec<Option<String>>>, regex::Error>)
    ensures
        r is Ok <==> regex_valid(pattern@),
        r is Ok ==> captures_view(r->Ok_0) == regex_captures(pattern@, text@),
{
    let re = regex::Regex::new(pattern)?;
    Ok(re.captures_iter(text).map(|c| c.iter().map(|g| g.map(|m| m.as_str().to_string())).collect()).collect())
}

/// Relies on `regex::Regex::new` and `Regex::replace_all` with an empty
/// replacement, which holds no `$` reference.
#[verifier::external_body]
pub(crate) fn remove_all(pattern: &str, text: &str) -> (r: Result<String, regex::Error>)
    ensures
        r is Ok <==> regex_valid(pattern@),
        r is Ok ==> r->Ok_0@ == regex_removed(pattern@, text@),
{
    let re = regex::Regex::new(pattern)?;
    Ok(re.replace_all(text, "").into_owned())
}

/// Relies on `regex::Regex::new` and `Regex::is_match`.
#[verifier::external_body]
pub(crate) fn is_match(pattern: &str, text: &str) -> (r: Result<bool, regex::Error>)
    ensures
        r is Ok <==> regex_valid(pattern@),
        r is Ok ==> r->Ok_0 == regex_matches(pattern@, text@),
{
    let re = regex::Regex::new(pattern)?;
    Ok(re.is_match(text))
}

} // verus!
