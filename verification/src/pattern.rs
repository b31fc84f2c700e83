//! The regular-expression engine of the `regex` crate, as the text matcher
//! sees it: whether a pattern compiles, where its first match lies, and how a
//! literal is escaped.

use vstd::prelude::*;
use crate::text::{is_char_offset, opt_view};

verus! {

/// The first match of `pattern` (compiled case-insensitively when asked) in
/// `haystack`, as UTF-8 byte offsets `(start, end)`; `None` when the pattern
/// does not compile or does not match.
pub uninterp spec fn regex_first_match(
    pattern: Seq<char>,
    case_insensitive: bool,
    haystack: Seq<char>,
) -> Option<(usize, usize)>;

/// The message of the error that compiling `pattern` gives, or `None` when
/// it compiles.
pub uninterp spec fn regex_build_error(pattern: Seq<char>, case_insensitive: bool) -> Option<
    Seq<char>,
>;

/// The characters that have a meaning in regex syntax.
pub open spec fn is_regex_meta(c: char) -> bool {
    c == '\\' || c == '.' || c == '+' || c == '*' || c == '?' || c == '(' || c == ')' || c == '|'
        || c == '[' || c == ']' || c == '{' || c == '}' || c == '^' || c == '$' || c == '#' || c
        == '&' || c == '-' || c == '~'
}

/// `s` with a backslash put before each meta character, so that it matches
/// itself literally.
pub open spec fn regex_escape_spec(s: Seq<char>) -> Seq<char>
    decreases s.len(),
{
    if s.len() == 0 {
        seq![]
    } else if is_regex_meta(s.last()) {
        regex_escape_spec(s.drop_last()) + seq!['\\', s.last()]
    } else {
        regex_escape_spec(s.drop_last()).push(s.last())
    }
}

/// `regex::escape`: the source escapes exactly the meta characters above,
/// one backslash each, and copies every other character.
#[verifier::external_body]
pub(crate) fn regex_escape(s: &str) -> (r: String)
    ensures
        r@ == regex_escape_spec(s@),
{
    regex::escape(s)
}

/// Builds `pattern` with `RegexBuilder` (case-insensitive when asked) and runs
/// `Regex::find` on `haystack`. The contract names the match; it also states
/// what the crate documents of a match: `start <= end`, both on character
/// boundaries of the haystack, and that a pattern that fails to compile gives
/// no match. Which text matches is not stated.
#[verifier::external_body]
pub(crate) fn regex_find(pattern: &str, case_insensitive: bool, haystack: &str) -> (r: Option<
    (usize, usize),
>)
    ensures
        r == regex_first_match(pattern@, case_insensitive, haystack@),
        r matches Some((a, b)) ==> a <= b && is_char_offset(haystack@, a as int) && is_char_offset(
            haystack@,
            b as int,
        ),
        r is Some ==> regex_build_error(pattern@, case_insensitive) is None,
{
    let re = regex::RegexBuilder::new(pattern).case_insensitive(case_insensitive).build().ok()?;
    let m = re.find(haystack)?;
    Some((m.start(), m.end()))
}

/// Compiles `pattern` with `RegexBuilder` and returns the `Display` text of
/// the error, if compiling fails. The contract names that text.
#[verifier::external_body]
pub(crate) fn regex_error(pattern: &str, case_insensitive: bool) -> (r: Option<String>)
    ensures
        opt_view(r) == regex_build_error(pattern@, case_insensitive),
{
    match regex::RegexBuilder::new(pattern).case_insensitive(case_insensitive).build() {
        Ok(_) => None,
        Err(e) => Some(e.to_string()),
    }
}

} // verus!
