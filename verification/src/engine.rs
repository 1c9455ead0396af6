//! The boundary to the `regex` crate.
//!
//! What this module says of the crate is believed, not proved: the
//! declarations of its types, the names given to what its functions return,
//! and the contracts of the wrappers that make the calls.

use regex::Regex;
use vstd::prelude::*;

verus! {

/// `regex::Regex`, a compiled regular expression, opaque to the verifier.
#[verifier::external_type_specification]
#[verifier::external_body]
pub struct ExRegex(regex::Regex);

/// `regex::Error`, the failure of a compilation, opaque to the verifier.
#[verifier::external_type_specification]
#[verifier::external_body]
pub struct ExRegexError(regex::Error);

/// Whether `Regex::new`, with the limits it sets by default, accepts
/// `pattern`.
pub uninterp spec fn regex_compiles(pattern: Seq<char>) -> bool;

/// The pattern that `re` was compiled from: what `Regex::as_str` returns.
pub uninterp spec fn regex_pattern(re: Regex) -> Seq<char>;

/// Whether `re` was built with the options that `Regex::new` builds with,
/// so that its pattern alone says what it matches. A `RegexBuilder` can
/// build, from the same pattern, a regular expression that matches
/// otherwise; nothing is said of the fields that such a one splits off.
pub uninterp spec fn regex_default(re: Regex) -> bool;

/// The substrings, in order, that `Regex::split` yields on `haystack` for a
/// regular expression that `Regex::new` compiled from `pattern`.
pub uninterp spec fn regex_split(pattern: Seq<char>, haystack: Seq<char>) -> Seq<Seq<char>>;

/// Whether the engine's syntax gives `c` a meaning of its own, so that it
/// stands for itself only behind a backslash.
pub open spec fn is_meta_character(c: char) -> bool {
    c == '\\' || c == '.' || c == '+' || c == '*' || c == '?' || c == '(' || c == ')' || c == '|'
        || c == '[' || c == ']' || c == '{' || c == '}' || c == '^' || c == '$' || c == '#'
        || c == '&' || c == '-' || c == '~'
}

/// `text` with a backslash put before each of its meta characters: a pattern
/// that matches `text` and nothing else.
pub open spec fn escaped(text: Seq<char>) -> Seq<char>
    decreases text.len(),
{
    if text.len() == 0 {
        Seq::empty()
    } else if is_meta_character(text.last()) {
        escaped(text.drop_last()).push('\\').push(text.last())
    } else {
        escaped(text.drop_last()).push(text.last())
    }
}

/// The views of the strings of `fields`, in order.
pub open spec fn views_of(fields: Seq<&str>) -> Seq<Seq<char>> {
    fields.map_values(|s: &str| s@)
}

/// Calls `regex::escape`.
///
/// Claims that the result is the text with a backslash before each meta
/// character and every other character as it was.
#[verifier::external_body]
pub(crate) fn escape(text: &str) -> (r: String)
    ensures
        r@ == escaped(text@),
{
    regex::escape(text)
}

/// Calls `Regex::new`.
///
/// Claims that the call succeeds exactly on the patterns that
/// [`regex_compiles`] names, and that the regular expression it returns
/// remembers the pattern it was given and has the default options.
#[verifier::external_body]
pub(crate) fn compile(pattern: &str) -> (r: Result<Regex, regex::Error>)
    ensures
        r is Ok <==> regex_compiles(pattern@),
        r matches Ok(re) ==> regex_pattern(re) == pattern@ && regex_default(re),
{
    Regex::new(pattern)
}

/// Calls `Regex::split` and collects what it yields.
///
/// Claims that there is at least one substring, the last being what follows
/// the last match, and that for a regular expression with the default
/// options the substrings come out as [`regex_split`] names them for its
/// pattern.
#[verifier::external_body]
pub(crate) fn split<'a>(re: &Regex, line: &'a str) -> (fields: Vec<&'a str>)
    ensures
        fields@.len() >= 1,
        regex_default(*re) ==> views_of(fields@) == regex_split(regex_pattern(*re), line@),
{
    re.split(line).collect()
}

} // verus!
