use warp_control::keys::keystroke_to_bytes;
use warp_control::matching::{find_in_text, find_literal, line_containing, match_span_text};
use warp_control::snapshot::truncate_text;
use warp_control::text::{char_index_of_offset, parse_u64, split_words, u64_to_string};

#[test]
fn keystroke_named_keys() {
    assert_eq!(keystroke_to_bytes("enter"), Some(b"\r".to_vec()));
    assert_eq!(keystroke_to_bytes("  Return "), Some(b"\r".to_vec()));
    assert_eq!(keystroke_to_bytes("\\n"), Some(b"\r".to_vec()));
    assert_eq!(keystroke_to_bytes("ESC"), Some(b"\x1b".to_vec()));
    assert_eq!(keystroke_to_bytes("up"), Some(b"\x1b[A".to_vec()));
    assert_eq!(keystroke_to_bytes("PgDn"), Some(b"\x1b[6~".to_vec()));
    assert_eq!(keystroke_to_bytes("f1"), Some(b"\x1bOP".to_vec()));
    assert_eq!(keystroke_to_bytes("f12"), Some(b"\x1b[24~".to_vec()));
    assert_eq!(keystroke_to_bytes("del"), Some(b"\x1b[3~".to_vec()));
}

#[test]
fn keystroke_ctrl_chords() {
    assert_eq!(keystroke_to_bytes("ctrl-c"), Some(vec![0x03]));
    assert_eq!(keystroke_to_bytes("C-D"), Some(vec![0x04]));
    assert_eq!(keystroke_to_bytes("ctrl-z"), Some(vec![0x1a]));
    assert_eq!(keystroke_to_bytes("ctrl-@"), Some(vec![0x00]));
    assert_eq!(keystroke_to_bytes("ctrl- "), None);
    assert_eq!(keystroke_to_bytes("ctrl-["), Some(vec![0x1b]));
    assert_eq!(keystroke_to_bytes("ctrl-\\"), Some(vec![0x1c]));
    assert_eq!(keystroke_to_bytes("ctrl-?"), Some(vec![0x7f]));
}

#[test]
fn keystroke_unknown_names() {
    assert_eq!(keystroke_to_bytes("f13"), None);
    assert_eq!(keystroke_to_bytes("ctrl-"), None);
    assert_eq!(keystroke_to_bytes("ctrl-ab"), None);
    assert_eq!(keystroke_to_bytes("ctrl-1"), None);
    assert_eq!(keystroke_to_bytes("ctrl-é"), None);
    assert_eq!(keystroke_to_bytes(""), None);
}

#[test]
fn parse_u64_follows_str_parse() {
    assert_eq!(parse_u64("0"), Some(0));
    assert_eq!(parse_u64("+15"), Some(15));
    assert_eq!(parse_u64("18446744073709551615"), Some(u64::MAX));
    assert_eq!(parse_u64("18446744073709551616"), None);
    assert_eq!(parse_u64(""), None);
    assert_eq!(parse_u64("+"), None);
    assert_eq!(parse_u64(" 1"), None);
    assert_eq!(parse_u64("-1"), None);
}

#[test]
fn decimal_round_trip() {
    for n in [0u64, 7, 10, 99, 100, 4_294_967_296, u64::MAX] {
        assert_eq!(u64_to_string(n), n.to_string());
        assert_eq!(parse_u64(&u64_to_string(n)), Some(n));
    }
}

#[test]
fn split_words_matches_split_whitespace() {
    for s in ["", "  ", "a", " a  b\tc\n", "FOO=1 vim file", "\u{3000}x\u{a0}y "] {
        let expected: Vec<String> = s.split_whitespace().map(|w| w.to_string()).collect();
        assert_eq!(split_words(s), expected);
    }
}

#[test]
fn byte_offsets_map_to_character_indices() {
    let v: Vec<char> = "aé€😀b".chars().collect();
    assert_eq!(char_index_of_offset(&v, 0), 0);
    assert_eq!(char_index_of_offset(&v, 1), 1);
    assert_eq!(char_index_of_offset(&v, 3), 2);
    assert_eq!(char_index_of_offset(&v, 6), 3);
    assert_eq!(char_index_of_offset(&v, 10), 4);
    assert_eq!(char_index_of_offset(&v, 11), 5);
}

#[test]
fn truncate_text_limits() {
    assert_eq!(truncate_text("hello".to_string(), 0), ("hello".to_string(), false));
    assert_eq!(truncate_text("hello".to_string(), 5), ("hello".to_string(), false));
    assert_eq!(truncate_text("hello".to_string(), 3), ("llo".to_string(), true));
    assert_eq!(truncate_text("😀😀".to_string(), 5), ("😀".to_string(), true));
    assert_eq!(truncate_text("😀".to_string(), 3), ("".to_string(), true));
    assert_eq!(truncate_text("".to_string(), 3), ("".to_string(), false));
}

#[test]
fn truncated_tail_fits_and_is_longest() {
    let text = "ab€cd😀ef";
    for max in 1..=text.len() + 2 {
        let (tail, cut) = truncate_text(text.to_string(), max);
        assert!(text.ends_with(&tail));
        assert!(tail.len() <= max);
        assert_eq!(cut, tail.len() < text.len());
        if cut {
            let dropped = &text[..text.len() - tail.len()];
            let last = dropped.chars().last().unwrap();
            assert!(tail.len() + last.len_utf8() > max);
        }
    }
}

#[test]
fn literal_search_finds_first_occurrence() {
    let h: Vec<char> = "abcabc".chars().collect();
    let n: Vec<char> = "bc".chars().collect();
    assert_eq!(find_literal(&h, &n), Some(1));
    let e: Vec<char> = Vec::new();
    assert_eq!(find_literal(&h, &e), Some(0));
    let x: Vec<char> = "cab".chars().collect();
    assert_eq!(find_literal(&h, &x), Some(2));
    let y: Vec<char> = "abcabcd".chars().collect();
    assert_eq!(find_literal(&h, &y), None);
}

#[test]
fn line_containing_trims_and_skips_blank_lines() {
    let v: Vec<char> = "first\n  second line  \nthird".chars().collect();
    assert_eq!(line_containing(&v, 8, 14).as_deref(), Some("  second line"));
    assert_eq!(line_containing(&v, 0, 5).as_deref(), Some("first"));
    let blank: Vec<char> = "a\n   \nb".chars().collect();
    assert_eq!(line_containing(&blank, 3, 3), None);
}

#[test]
fn find_in_text_literal_returns_needle_and_line() {
    let found = find_in_text("build\nstatus: done ok\n", "done", false, false);
    assert_eq!(
        found,
        Some(("done".to_string(), Some("status: done ok".to_string())))
    );
    assert_eq!(find_in_text("abc", "x", false, false), None);
}

#[test]
fn find_in_text_regex_reports_matched_text() {
    let found = find_in_text("booting\nREADY at 12:00\n", "READY|DONE", true, false);
    assert_eq!(
        found,
        Some(("READY".to_string(), Some("READY at 12:00".to_string())))
    );
    let found = find_in_text("exit code 42 here", r"\d+", true, false);
    assert_eq!(
        found,
        Some(("42".to_string(), Some("exit code 42 here".to_string())))
    );
    assert_eq!(find_in_text("abc", "(", true, false), None);
}

#[test]
fn case_insensitive_literal_escapes_meta_characters() {
    let found = find_in_text("axb\nA.B done", "a.b", false, true);
    assert_eq!(
        found,
        Some(("A.B".to_string(), Some("A.B done".to_string())))
    );
    assert_eq!(find_in_text("a+b", "A+B", false, true).unwrap().0, "a+b");
    assert_eq!(find_in_text("aab", "A+B", false, true), None);
}

#[test]
fn match_span_text_uses_byte_offsets() {
    assert_eq!(
        match_span_text("é one\ntwo", Some((3, 6))),
        Some(("one".to_string(), Some("é one".to_string())))
    );
    assert_eq!(match_span_text("abc", None), None);
}

#[test]
fn key_names_ignore_case_and_padding() {
    for key in ["enter", "PageUp", "ctrl-c", "F5", "bs"] {
        let padded = format!("  {}\t", key.to_uppercase());
        assert_eq!(keystroke_to_bytes(&padded), keystroke_to_bytes(&key.to_lowercase()));
    }
}
