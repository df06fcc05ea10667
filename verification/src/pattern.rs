//! Regular-expression scanning, delegated to the `regex` crate.
//!
//! Nothing in this module is proved: the contracts below are beliefs about
//! `regex`, phrased over uninterpreted functions of the pattern source and the
//! haystack.

use vstd::prelude::*;

verus! {

/// The error `regex::Regex::new` reports for a pattern it cannot compile.
#[verifier::external_type_specification]
#[verifier::external_body]
pub struct ExRegexError(regex::Error);

/// Whether `regex::Regex::new` accepts `pattern`.
pub uninterp spec fn pattern_is_valid(pattern: Seq<char>) -> bool;

/// The substrings that `regex::Regex::find_iter` yields for `pattern` over
/// `text`: the successive non-overlapping matches, leftmost first.
pub uninterp spec fn pattern_matches(pattern: Seq<char>, text: Seq<char>) -> Seq<Seq<char>>;

/// For each match that `regex::Regex::captures_iter` yields for `pattern`
/// over `text`, leftmost first, what `Captures::name` gives for `group`: the
/// substring the group matched, or nothing where the group is unknown or took
/// no part in that match.
pub uninterp spec fn pattern_captures(
    pattern: Seq<char>,
    group: Seq<char>,
    text: Seq<char>,
) -> Seq<Option<Seq<char>>>;

/// Compiles `pattern` with `regex::Regex::new` and collects what
/// `Regex::find_iter` yields over `text`, each match as the substring it
/// covers. Trusted: fails exactly when the pattern does not compile, and
/// otherwise returns the matches in the order the iterator yields them.
#[verifier::external_body]
pub(crate) fn find_all(pattern: &str, text: &str) -> (res: Result<Vec<String>, regex::Error>)
    ensures
        res is Ok <==> pattern_is_valid(pattern@),
        res matches Ok(found) ==> found.deep_view() == pattern_matches(pattern@, text@),
{
    let compiled = regex::Regex::new(pattern)?;
    Ok(compiled.find_iter(text).map(|m| m.as_str().to_string()).collect())
}

/// Compiles `pattern` with `regex::Regex::new`, walks `Regex::captures_iter`
/// over `text` and asks each match for the group called `group` with
/// `Captures::name`. Trusted: fails exactly when the pattern does not
/// compile, and otherwise returns one entry per match, in the iterator's
/// order, holding the group's substring where the group took part.
#[verifier::external_body]
pub(crate) fn capture_all(pattern: &str, group: &str, text: &str) -> (res: Result<
    Vec<Option<String>>,
    regex::Error,
>)
    ensures
        res is Ok <==> pattern_is_valid(pattern@),
        res matches Ok(found) ==> found.deep_view() == pattern_captures(pattern@, group@, text@),
{
    let compiled = regex::Regex::new(pattern)?;
    Ok(
        compiled.captures_iter(text).map(
            |c| c.name(group).map(|m| m.as_str().to_string()),
        ).collect(),
    )
}

/// The text that `regex::Regex::replace_all` gives for `pattern` over `text`
/// with `replacement`: every non-overlapping match replaced, `$name`
/// references in the replacement expanded.
pub uninterp spec fn pattern_replaced(
    pattern: Seq<char>,
    text: Seq<char>,
    replacement: Seq<char>,
) -> Seq<char>;

/// Compiles `pattern` with `regex::Regex::new` and replaces all its matches
/// in `text` with `Regex::replace_all`. Trusted: fails exactly when the
/// pattern does not compile, and otherwise returns the text that
/// `replace_all` gives.
#[verifier::external_body]
pub(crate) fn replace_all(pattern: &str, text: &str, replacement: &str) -> (res: Result<
    String,
    regex::Error,
>)
    ensures
        res is Ok <==> pattern_is_valid(pattern@),
        res matches Ok(replaced) ==> replaced@ == pattern_replaced(pattern@, text@, replacement@),
{
    let compiled = regex::Regex::new(pattern)?;
    Ok(compiled.replace_all(text, replacement).into_owned())
}

} // verus!
