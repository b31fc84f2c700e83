//! Text search behind `wait-for-text`: literal, case-insensitive literal and
//! regex matching in pane text, the line that holds a match, and the search
//! over a pane snapshot that skips text already present when the wait began.

use vstd::prelude::*;
use crate::pattern::{regex_escape, regex_escape_spec, regex_find, regex_first_match};
use crate::text::{
    char_index_of_offset, chars_of, find_char, find_char_from, has_prefix_at,
    lemma_utf8_len_take_mono, opt_view, rfind_char, rfind_char_before, skip_ws_backward,
    string_from, trim_end, utf8_len, is_char_offset,
};

verus! {

/// The line of `t` around the characters `start..end`: from just after the
/// last newline before `start` to the first newline at or after `end`, with
/// trailing whitespace removed; `None` when that leaves nothing.
pub open spec fn line_at(t: Seq<char>, start: int, end: int) -> Option<Seq<char>> {
    let ls = rfind_char_before(t, '\n', start) + 1;
    let f = find_char_from(t, '\n', end);
    let le = if f == -1 {
        t.len() as int
    } else {
        f
    };
    let line = trim_end(t.subrange(ls, le));
    if line.len() == 0 {
        None
    } else {
        Some(line)
    }
}

/// The line of `v` that holds the characters `start..end` (see `line_at`).
pub fn line_containing(v: &Vec<char>, start: usize, end: usize) -> (r: Option<String>)
    requires
        start <= end <= v@.len(),
    ensures
        opt_view(r) == line_at(v@, start as int, end as int),
{
    let ls = match rfind_char(v, start, '\n') {
        Some(i) => i + 1,
        None => 0,
    };
    let le = find_char(v, end, v.len(), '\n');
    let k = skip_ws_backward(v, ls, le);
    if k == ls {
        None
    } else {
        Some(string_from(v, ls, k))
    }
}

/// Whether `n` occurs in `h` at index `k`.
pub open spec fn occurs_at(h: Seq<char>, n: Seq<char>, k: int) -> bool {
    0 <= k && k + n.len() <= h.len() && h.subrange(k, k + n.len()) == n
}

/// Index of the first occurrence of `n` in `h` at or after `i`.
pub open spec fn find_from(h: Seq<char>, n: Seq<char>, i: int) -> Option<int>
    decreases h.len() + 1 - i,
{
    if i < 0 || i + n.len() > h.len() {
        None
    } else if occurs_at(h, n, i) {
        Some(i)
    } else {
        find_from(h, n, i + 1)
    }
}

/// What `find_from` returns is an occurrence at or after `i`, and nothing
/// occurs before it.
pub proof fn lemma_find_from(h: Seq<char>, n: Seq<char>, i: int)
    requires
        0 <= i,
    ensures
        match find_from(h, n, i) {
            Some(k) => i <= k && occurs_at(h, n, k) && forall|j: int|
                i <= j < k ==> !#[trigger] occurs_at(h, n, j),
            None => forall|j: int| i <= j ==> !#[trigger] occurs_at(h, n, j),
        },
    decreases h.len() + 1 - i,
{
    if i + n.len() <= h.len() && !occurs_at(h, n, i) {
        lemma_find_from(h, n, i + 1);
    }
}

/// Index of the first occurrence of `n` in `h`.
pub fn find_literal(h: &Vec<char>, n: &Vec<char>) -> (r: Option<usize>)
    ensures
        match r {
            Some(k) => find_from(h@, n@, 0) == Some(k as int),
            None => find_from(h@, n@, 0) is None,
        },
{
    if n.len() > h.len() {
        return None;
    }
    if n.len() == 0 {
        proof {
            assert(h@.subrange(0, 0) =~= n@);
        }
        return Some(0);
    }
    let mut i: usize = 0;
    while i <= h.len() - n.len()
        invariant
            1 <= n@.len() <= h@.len(),
            i <= h@.len() - n@.len() + 1,
            find_from(h@, n@, 0) == find_from(h@, n@, i as int),
        decreases h.len() - n.len() + 1 - i,
    {
        if has_prefix_at(h, i, n) {
            return Some(i);
        }
        i += 1;
    }
    None
}

/// The character index that byte offset `b` of `h` falls before.
pub open spec fn char_index_at(h: Seq<char>, b: int) -> int {
    choose|k: int| 0 <= k <= h.len() && #[trigger] utf8_len(h.take(k)) == b
}

/// Only one character index sits at a given byte offset.
pub proof fn lemma_char_index_unique(h: Seq<char>, b: int, k: int)
    requires
        0 <= k <= h.len(),
        utf8_len(h.take(k)) == b,
    ensures
        char_index_at(h, b) == k,
{
    let c = char_index_at(h, b);
    assert(utf8_len(h.take(k)) == b);
    if c < k {
        lemma_utf8_len_take_mono(h, c, k);
    } else if c > k {
        lemma_utf8_len_take_mono(h, k, c);
    }
}

/// Byte span `(a, b)` of `h` is well formed: ordered, on character boundaries.
pub open spec fn valid_span(h: Seq<char>, span: Option<(usize, usize)>) -> bool {
    span matches Some((a, b)) ==> a <= b && is_char_offset(h, a as int) && is_char_offset(
        h,
        b as int,
    )
}

/// The matched text and its line for a byte span of `h`.
pub open spec fn match_from_span(h: Seq<char>, span: Option<(usize, usize)>) -> Option<
    (Seq<char>, Option<Seq<char>>),
> {
    match span {
        Some((a, b)) => {
            let i = char_index_at(h, a as int);
            let j = char_index_at(h, b as int);
            Some((h.subrange(i, j), line_at(h, i, j)))
        },
        None => None,
    }
}

/// The character views of a match result.
pub open spec fn found_view(r: Option<(String, Option<String>)>) -> Option<
    (Seq<char>, Option<Seq<char>>),
> {
    match r {
        Some((t, l)) => Some((t@, opt_view(l))),
        None => None,
    }
}

/// What `find_in_text` finds: for a regex, its first match; for a
/// case-insensitive literal, the first match of the escaped literal compiled
/// case-insensitively; otherwise the first exact occurrence of the needle.
/// Each comes with the trimmed line that holds it.
pub open spec fn find_in_text_spec(
    h: Seq<char>,
    needle: Seq<char>,
    regex: bool,
    case_insensitive: bool,
) -> Option<(Seq<char>, Option<Seq<char>>)> {
    if regex {
        match_from_span(h, regex_first_match(needle, case_insensitive, h))
    } else if case_insensitive {
        match_from_span(h, regex_first_match(regex_escape_spec(needle), true, h))
    } else {
        match find_from(h, needle, 0) {
            Some(k) => Some((needle, line_at(h, k, k + needle.len()))),
            None => None,
        }
    }
}

/// The matched text and its line for a byte span that a regex search gave.
pub fn match_span_text(haystack: &str, span: Option<(usize, usize)>) -> (r: Option<
    (String, Option<String>),
>)
    requires
        valid_span(haystack@, span),
    ensures
        found_view(r) == match_from_span(haystack@, span),
{
    match span {
        Some((a, b)) => {
            let h = chars_of(haystack);
            let i = char_index_of_offset(&h, a);
            let j = char_index_of_offset(&h, b);
            proof {
                lemma_char_index_unique(h@, a as int, i as int);
                lemma_char_index_unique(h@, b as int, j as int);
                if j < i {
                    lemma_utf8_len_take_mono(h@, j as int, i as int);
                }
            }
            let text = string_from(&h, i, j);
            let line = line_containing(&h, i, j);
            Some((text, line))
        },
        None => None,
    }
}

/// Finds `needle` in `haystack` (as a regex when `regex` is set, ignoring
/// case when `case_insensitive` is set) and returns the matched text and the
/// trimmed line that holds it.
pub fn find_in_text(haystack: &str, needle: &str, regex: bool, case_insensitive: bool) -> (r: Option<
    (String, Option<String>),
>)
    ensures
        found_view(r) == find_in_text_spec(haystack@, needle@, regex, case_insensitive),
{
    if regex {
        let span = regex_find(needle, case_insensitive, haystack);
        return match_span_text(haystack, span);
    }
    if case_insensitive {
        let escaped = regex_escape(needle);
        let span = regex_find(escaped.as_str(), true, haystack);
        return match_span_text(haystack, span);
    }
    let h = chars_of(haystack);
    let n = chars_of(needle);
    match find_literal(&h, &n) {
        Some(k) => {
            proof {
                lemma_find_from(h@, n@, 0);
            }
            let line = line_containing(&h, k, k + n.len());
            Some((needle.to_owned(), line))
        },
        None => None,
    }
}

} // verus!
