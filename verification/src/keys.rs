//! Key names and `ctrl-<char>` chords, and the bytes a PTY expects for them.

use vstd::prelude::*;
use crate::text::{ascii_lower, lemma_lower_trim_idempotent, lemma_trim_fixed, chars_eq_str, chars_of, has_prefix_at, starts_with, to_ascii_lower, trim, trim_bounds};

verus! {

/// Bytes for a named key (already trimmed and lowercased), or `None` for a
/// name that is not in the table.
pub open spec fn named_key_bytes(k: Seq<char>) -> Option<Seq<u8>> {
    if k == "enter"@ || k == "return"@ || k == "\\n"@ {
        Some(seq![0x0du8])
    } else if k == "tab"@ || k == "\\t"@ {
        Some(seq![0x09u8])
    } else if k == "esc"@ || k == "escape"@ {
        Some(seq![0x1bu8])
    } else if k == "space"@ {
        Some(seq![0x20u8])
    } else if k == "backspace"@ || k == "bs"@ {
        Some(seq![0x7fu8])
    } else if k == "delete"@ || k == "del"@ {
        Some(seq![0x1bu8, 0x5bu8, 0x33u8, 0x7eu8])
    } else if k == "ins"@ || k == "insert"@ {
        Some(seq![0x1bu8, 0x5bu8, 0x32u8, 0x7eu8])
    } else if k == "up"@ {
        Some(seq![0x1bu8, 0x5bu8, 0x41u8])
    } else if k == "down"@ {
        Some(seq![0x1bu8, 0x5bu8, 0x42u8])
    } else if k == "right"@ {
        Some(seq![0x1bu8, 0x5bu8, 0x43u8])
    } else if k == "left"@ {
        Some(seq![0x1bu8, 0x5bu8, 0x44u8])
    } else if k == "home"@ {
        Some(seq![0x1bu8, 0x5bu8, 0x48u8])
    } else if k == "end"@ {
        Some(seq![0x1bu8, 0x5bu8, 0x46u8])
    } else if k == "pageup"@ || k == "pgup"@ {
        Some(seq![0x1bu8, 0x5bu8, 0x35u8, 0x7eu8])
    } else if k == "pagedown"@ || k == "pgdn"@ {
        Some(seq![0x1bu8, 0x5bu8, 0x36u8, 0x7eu8])
    } else if k == "f1"@ {
        Some(seq![0x1bu8, 0x4fu8, 0x50u8])
    } else if k == "f2"@ {
        Some(seq![0x1bu8, 0x4fu8, 0x51u8])
    } else if k == "f3"@ {
        Some(seq![0x1bu8, 0x4fu8, 0x52u8])
    } else if k == "f4"@ {
        Some(seq![0x1bu8, 0x4fu8, 0x53u8])
    } else if k == "f5"@ {
        Some(seq![0x1bu8, 0x5bu8, 0x31u8, 0x35u8, 0x7eu8])
    } else if k == "f6"@ {
        Some(seq![0x1bu8, 0x5bu8, 0x31u8, 0x37u8, 0x7eu8])
    } else if k == "f7"@ {
        Some(seq![0x1bu8, 0x5bu8, 0x31u8, 0x38u8, 0x7eu8])
    } else if k == "f8"@ {
        Some(seq![0x1bu8, 0x5bu8, 0x31u8, 0x39u8, 0x7eu8])
    } else if k == "f9"@ {
        Some(seq![0x1bu8, 0x5bu8, 0x32u8, 0x30u8, 0x7eu8])
    } else if k == "f10"@ {
        Some(seq![0x1bu8, 0x5bu8, 0x32u8, 0x31u8, 0x7eu8])
    } else if k == "f11"@ {
        Some(seq![0x1bu8, 0x5bu8, 0x32u8, 0x33u8, 0x7eu8])
    } else if k == "f12"@ {
        Some(seq![0x1bu8, 0x5bu8, 0x32u8, 0x34u8, 0x7eu8])
    } else {
        None
    }
}

/// The control byte of `ctrl-<c>` for a one-byte `c`: letters give 1 to 26,
/// `@` and space give 0, and `[ \ ] ^ _ ?` give ESC, 0x1c to 0x1f and DEL.
pub open spec fn ctrl_code(c: char) -> Option<u8> {
    if c == '@' || c == ' ' {
        Some(0u8)
    } else if 'a' <= c <= 'z' {
        Some(((c as u32) - ('a' as u32) + 1) as u8)
    } else if 'A' <= c <= 'Z' {
        Some(((c as u32) - ('A' as u32) + 1) as u8)
    } else if c == '[' {
        Some(0x1bu8)
    } else if c == '\\' {
        Some(0x1cu8)
    } else if c == ']' {
        Some(0x1du8)
    } else if c == '^' {
        Some(0x1eu8)
    } else if c == '_' {
        Some(0x1fu8)
    } else if c == '?' {
        Some(0x7fu8)
    } else {
        None
    }
}

/// What follows the `ctrl-` (or `c-`) prefix of a chord.
pub open spec fn chord_rest(k: Seq<char>) -> Option<Seq<char>> {
    if starts_with(k, "ctrl-"@) {
        Some(k.skip("ctrl-"@.len() as int))
    } else if starts_with(k, "c-"@) {
        Some(k.skip("c-"@.len() as int))
    } else {
        None
    }
}

/// The bytes for a key name (ASCII case and surrounding whitespace ignored):
/// the named-key table first, then a `ctrl-`/`c-` chord on one ASCII
/// character.
pub open spec fn keystroke_bytes_spec(key: Seq<char>) -> Option<Seq<u8>> {
    let k = ascii_lower(trim(key));
    match named_key_bytes(k) {
        Some(b) => Some(b),
        None => match chord_rest(k) {
            Some(r) => if r.len() == 1 && (r[0] as u32) < 0x80 {
                match ctrl_code(r[0]) {
                    Some(code) => Some(seq![code]),
                    None => None,
                }
            } else {
                None
            },
            None => None,
        },
    }
}

fn ctrl_byte(c: char) -> (r: Option<u8>)
    ensures
        r == ctrl_code(c),
{
    if c == '@' || c == ' ' {
        Some(0u8)
    } else if 'a' <= c && c <= 'z' {
        Some(((c as u32) - ('a' as u32) + 1) as u8)
    } else if 'A' <= c && c <= 'Z' {
        Some(((c as u32) - ('A' as u32) + 1) as u8)
    } else if c == '[' {
        Some(0x1bu8)
    } else if c == '\\' {
        Some(0x1cu8)
    } else if c == ']' {
        Some(0x1du8)
    } else if c == '^' {
        Some(0x1eu8)
    } else if c == '_' {
        Some(0x1fu8)
    } else if c == '?' {
        Some(0x7fu8)
    } else {
        None
    }
}

fn named_key(k: &Vec<char>) -> (r: Option<Vec<u8>>)
    ensures
        match r {
            Some(b) => named_key_bytes(k@) == Some(b@),
            None => named_key_bytes(k@) is None,
        },
{
    let b: Vec<u8> = if chars_eq_str(k, "enter") || chars_eq_str(k, "return") || chars_eq_str(
        k,
        "\\n",
    ) {
        vec![0x0du8]
    } else if chars_eq_str(k, "tab") || chars_eq_str(k, "\\t") {
        vec![0x09u8]
    } else if chars_eq_str(k, "esc") || chars_eq_str(k, "escape") {
        vec![0x1bu8]
    } else if chars_eq_str(k, "space") {
        vec![0x20u8]
    } else if chars_eq_str(k, "backspace") || chars_eq_str(k, "bs") {
        vec![0x7fu8]
    } else if chars_eq_str(k, "delete") || chars_eq_str(k, "del") {
        vec![0x1bu8, 0x5bu8, 0x33u8, 0x7eu8]
    } else if chars_eq_str(k, "ins") || chars_eq_str(k, "insert") {
        vec![0x1bu8, 0x5bu8, 0x32u8, 0x7eu8]
    } else if chars_eq_str(k, "up") {
        vec![0x1bu8, 0x5bu8, 0x41u8]
    } else if chars_eq_str(k, "down") {
        vec![0x1bu8, 0x5bu8, 0x42u8]
    } else if chars_eq_str(k, "right") {
        vec![0x1bu8, 0x5bu8, 0x43u8]
    } else if chars_eq_str(k, "left") {
        vec![0x1bu8, 0x5bu8, 0x44u8]
    } else if chars_eq_str(k, "home") {
        vec![0x1bu8, 0x5bu8, 0x48u8]
    } else if chars_eq_str(k, "end") {
        vec![0x1bu8, 0x5bu8, 0x46u8]
    } else if chars_eq_str(k, "pageup") || chars_eq_str(k, "pgup") {
        vec![0x1bu8, 0x5bu8, 0x35u8, 0x7eu8]
    } else if chars_eq_str(k, "pagedown") || chars_eq_str(k, "pgdn") {
        vec![0x1bu8, 0x5bu8, 0x36u8, 0x7eu8]
    } else if chars_eq_str(k, "f1") {
        vec![0x1bu8, 0x4fu8, 0x50u8]
    } else if chars_eq_str(k, "f2") {
        vec![0x1bu8, 0x4fu8, 0x51u8]
    } else if chars_eq_str(k, "f3") {
        vec![0x1bu8, 0x4fu8, 0x52u8]
    } else if chars_eq_str(k, "f4") {
        vec![0x1bu8, 0x4fu8, 0x53u8]
    } else if chars_eq_str(k, "f5") {
        vec![0x1bu8, 0x5bu8, 0x31u8, 0x35u8, 0x7eu8]
    } else if chars_eq_str(k, "f6") {
        vec![0x1bu8, 0x5bu8, 0x31u8, 0x37u8, 0x7eu8]
    } else if chars_eq_str(k, "f7") {
        vec![0x1bu8, 0x5bu8, 0x31u8, 0x38u8, 0x7eu8]
    } else if chars_eq_str(k, "f8") {
        vec![0x1bu8, 0x5bu8, 0x31u8, 0x39u8, 0x7eu8]
    } else if chars_eq_str(k, "f9") {
        vec![0x1bu8, 0x5bu8, 0x32u8, 0x30u8, 0x7eu8]
    } else if chars_eq_str(k, "f10") {
        vec![0x1bu8, 0x5bu8, 0x32u8, 0x31u8, 0x7eu8]
    } else if chars_eq_str(k, "f11") {
        vec![0x1bu8, 0x5bu8, 0x32u8, 0x33u8, 0x7eu8]
    } else if chars_eq_str(k, "f12") {
        vec![0x1bu8, 0x5bu8, 0x32u8, 0x34u8, 0x7eu8]
    } else {
        return None;
    };
    Some(b)
}

/// Maps a key name (or `ctrl-<char>` chord) to the bytes the PTY expects;
/// `None` for unknown names.
pub fn keystroke_to_bytes(key: &str) -> (r: Option<Vec<u8>>)
    ensures
        match r {
            Some(b) => keystroke_bytes_spec(key@) == Some(b@),
            None => keystroke_bytes_spec(key@) is None,
        },
{
    let v = chars_of(key);
    let (a, b) = trim_bounds(&v, 0, v.len());
    let mut t: Vec<char> = Vec::new();
    let mut i = a;
    while i < b
        invariant
            a <= i <= b <= v@.len(),
            t@ == v@.subrange(a as int, i as int),
        decreases b - i,
    {
        t.push(v[i]);
        proof {
            assert(t@ =~= v@.subrange(a as int, i + 1));
        }
        i += 1;
    }
    proof {
        assert(v@.subrange(0, v@.len() as int) =~= v@);
    }
    let lower = to_ascii_lower(&t);
    match named_key(&lower) {
        Some(bytes) => return Some(bytes),
        None => {},
    }
    let ctrl = chars_of("ctrl-");
    let short = chars_of("c-");
    let start = if has_prefix_at(&lower, 0, &ctrl) {
        proof {
            assert(lower@.subrange(0, ctrl@.len() as int) =~= lower@.take(ctrl@.len() as int));
        }
        ctrl.len()
    } else if has_prefix_at(&lower, 0, &short) {
        proof {
            assert(lower@.subrange(0, short@.len() as int) =~= lower@.take(short@.len() as int));
            if starts_with(lower@, "ctrl-"@) {
                assert(lower@.subrange(0, ctrl@.len() as int) =~= lower@.take(ctrl@.len() as int));
            }
        }
        short.len()
    } else {
        proof {
            if starts_with(lower@, "ctrl-"@) {
                assert(lower@.subrange(0, ctrl@.len() as int) =~= lower@.take(ctrl@.len() as int));
            }
            if starts_with(lower@, "c-"@) {
                assert(lower@.subrange(0, short@.len() as int) =~= lower@.take(short@.len() as int));
            }
        }
        return None;
    };
    let ghost rest = lower@.skip(start as int);
    if lower.len() - start == 1 {
        let c = lower[start];
        proof {
            assert(rest[0] == c);
        }
        if (c as u32) < 0x80 {
            match ctrl_byte(c) {
                Some(code) => {
                    let mut out: Vec<u8> = Vec::new();
                    out.push(code);
                    proof {
                        assert(out@ =~= seq![code]);
                    }
                    return Some(out);
                },
                None => return None,
            }
        }
    }
    None
}

/// Key names ignore ASCII case and surrounding whitespace: a name gives the
/// bytes of its trimmed, lowercased form.
pub proof fn lemma_keystroke_ignores_case_and_padding(key: Seq<char>)
    ensures
        keystroke_bytes_spec(key) == keystroke_bytes_spec(ascii_lower(trim(key))),
{
    lemma_lower_trim_idempotent(key);
}

proof fn lemma_key_enter()
    ensures
        named_key_bytes("enter"@) == Some(seq![0x0du8]),
{
    reveal_strlit("enter");
    assert("enter"@.len() == 5);
}
proof fn lemma_key_return()
    ensures
        named_key_bytes("return"@) == Some(seq![0x0du8]),
{
    reveal_strlit("enter");
    reveal_strlit("return");
    assert("enter"@.len() == 5);
    assert("return"@.len() == 6);
    assert("return"@ != "enter"@);
}
proof fn lemma_key_newline_escape()
    ensures
        named_key_bytes("\\n"@) == Some(seq![0x0du8]),
{
    reveal_strlit("enter");
    reveal_strlit("return");
    reveal_strlit("\\n");
    assert("enter"@.len() == 5);
    assert("return"@.len() == 6);
    assert("\\n"@.len() == 2);
    assert("\\n"@ != "enter"@);
    assert("\\n"@ != "return"@);
}
proof fn lemma_key_tab()
    ensures
        named_key_bytes("tab"@) == Some(seq![0x09u8]),
{
    reveal_strlit("enter");
    reveal_strlit("return");
    reveal_strlit("\\n");
    reveal_strlit("tab");
    assert("enter"@.len() == 5);
    assert("return"@.len() == 6);
    assert("\\n"@.len() == 2);
    assert("tab"@.len() == 3);
    assert("tab"@ != "enter"@);
    assert("tab"@ != "return"@);
    assert("tab"@ != "\\n"@);
}
proof fn lemma_key_tab_escape()
    ensures
        named_key_bytes("\\t"@) == Some(seq![0x09u8]),
{
    reveal_strlit("enter");
    reveal_strlit("return");
    reveal_strlit("\\n");
    reveal_strlit("tab");
    reveal_strlit("\\t");
    assert("enter"@.len() == 5);
    assert("return"@.len() == 6);
    assert("\\n"@.len() == 2);
    assert("tab"@.len() == 3);
    assert("\\t"@.len() == 2);
    assert("\\t"@ != "enter"@);
    assert("\\t"@ != "return"@);
    assert("\\t"@[1] != "\\n"@[1]);
    assert("\\t"@ != "\\n"@);
    assert("\\t"@ != "tab"@);
}
proof fn lemma_key_esc()
    ensures
        named_key_bytes("esc"@) == Some(seq![0x1bu8]),
{
    reveal_strlit("enter");
    reveal_strlit("return");
    reveal_strlit("\\n");
    reveal_strlit("tab");
    reveal_strlit("\\t");
    reveal_strlit("esc");
    assert("enter"@.len() == 5);
    assert("return"@.len() == 6);
    assert("\\n"@.len() == 2);
    assert("tab"@.len() == 3);
    assert("\\t"@.len() == 2);
    assert("esc"@.len() == 3);
    assert("esc"@ != "enter"@);
    assert("esc"@ != "return"@);
    assert("esc"@ != "\\n"@);
    assert("esc"@[0] != "tab"@[0]);
    assert("esc"@ != "tab"@);
    assert("esc"@ != "\\t"@);
}
proof fn lemma_key_escape()
    ensures
        named_key_bytes("escape"@) == Some(seq![0x1bu8]),
{
    reveal_strlit("enter");
    reveal_strlit("return");
    reveal_strlit("\\n");
    reveal_strlit("tab");
    reveal_strlit("\\t");
    reveal_strlit("esc");
    reveal_strlit("escape");
    assert("enter"@.len() == 5);
    assert("return"@.len() == 6);
    assert("\\n"@.len() == 2);
    assert("tab"@.len() == 3);
    assert("\\t"@.len() == 2);
    assert("esc"@.len() == 3);
    assert("escape"@.len() == 6);
    assert("escape"@ != "enter"@);
    assert("escape"@[0] != "return"@[0]);
    assert("escape"@ != "return"@);
    assert("escape"@ != "\\n"@);
    assert("escape"@ != "tab"@);
    assert("escape"@ != "\\t"@);
    assert("escape"@ != "esc"@);
}
proof fn lemma_key_space()
    ensures
        named_key_bytes("space"@) == Some(seq![0x20u8]),
{
    reveal_strlit("enter");
    reveal_strlit("return");
    reveal_strlit("\\n");
    reveal_strlit("tab");
    reveal_strlit("\\t");
    reveal_strlit("esc");
    reveal_strlit("escape");
    reveal_strlit("space");
    assert("enter"@.len() == 5);
    assert("return"@.len() == 6);
    assert("\\n"@.len() == 2);
    assert("tab"@.len() == 3);
    assert("\\t"@.len() == 2);
    assert("esc"@.len() == 3);
    assert("escape"@.len() == 6);
    assert("space"@.len() == 5);
    assert("space"@[0] != "enter"@[0]);
    assert("space"@ != "enter"@);
    assert("space"@ != "return"@);
    assert("space"@ != "\\n"@);
    assert("space"@ != "tab"@);
    assert("space"@ != "\\t"@);
    assert("space"@ != "esc"@);
    assert("space"@ != "escape"@);
}
proof fn lemma_key_backspace()
    ensures
        named_key_bytes("backspace"@) == Some(seq![0x7fu8]),
{
    reveal_strlit("enter");
    reveal_strlit("return");
    reveal_strlit("\\n");
    reveal_strlit("tab");
    reveal_strlit("\\t");
    reveal_strlit("esc");
    reveal_strlit("escape");
    reveal_strlit("space");
    reveal_strlit("backspace");
    assert("enter"@.len() == 5);
    assert("return"@.len() == 6);
    assert("\\n"@.len() == 2);
    assert("tab"@.len() == 3);
    assert("\\t"@.len() == 2);
    assert("esc"@.len() == 3);
    assert("escape"@.len() == 6);
    assert("space"@.len() == 5);
    assert("backspace"@.len() == 9);
    assert("backspace"@ != "enter"@);
    assert("backspace"@ != "return"@);
    assert("backspace"@ != "\\n"@);
    assert("backspace"@ != "tab"@);
    assert("backspace"@ != "\\t"@);
    assert("backspace"@ != "esc"@);
    assert("backspace"@ != "escape"@);
    assert("backspace"@ != "space"@);
}
proof fn lemma_key_bs()
    ensures
        named_key_bytes("bs"@) == Some(seq![0x7fu8]),
{
    reveal_strlit("enter");
    reveal_strlit("return");
    reveal_strlit("\\n");
    reveal_strlit("tab");
    reveal_strlit("\\t");
    reveal_strlit("esc");
    reveal_strlit("escape");
    reveal_strlit("space");
    reveal_strlit("backspace");
    reveal_strlit("bs");
    assert("enter"@.len() == 5);
    assert("return"@.len() == 6);
    assert("\\n"@.len() == 2);
    assert("tab"@.len() == 3);
    assert("\\t"@.len() == 2);
    assert("esc"@.len() == 3);
    assert("escape"@.len() == 6);
    assert("space"@.len() == 5);
    assert("backspace"@.len() == 9);
    assert("bs"@.len() == 2);
    assert("bs"@ != "enter"@);
    assert("bs"@ != "return"@);
    assert("bs"@[0] != "\\n"@[0]);
    assert("bs"@ != "\\n"@);
    assert("bs"@ != "tab"@);
    assert("bs"@[0] != "\\t"@[0]);
    assert("bs"@ != "\\t"@);
    assert("bs"@ != "esc"@);
    assert("bs"@ != "escape"@);
    assert("bs"@ != "space"@);
    assert("bs"@ != "backspace"@);
}
proof fn lemma_key_delete()
    ensures
        named_key_bytes("delete"@) == Some(seq![0x1bu8, 0x5bu8, 0x33u8, 0x7eu8]),
{
    reveal_strlit("enter");
    reveal_strlit("return");
    reveal_strlit("\\n");
    reveal_strlit("tab");
    reveal_strlit("\\t");
    reveal_strlit("esc");
    reveal_strlit("escape");
    reveal_strlit("space");
    reveal_strlit("backspace");
    reveal_strlit("bs");
    reveal_strlit("delete");
    assert("enter"@.len() == 5);
    assert("return"@.len() == 6);
    assert("\\n"@.len() == 2);
    assert("tab"@.len() == 3);
    assert("\\t"@.len() == 2);
    assert("esc"@.len() == 3);
    assert("escape"@.len() == 6);
    assert("space"@.len() == 5);
    assert("backspace"@.len() == 9);
    assert("bs"@.len() == 2);
    assert("delete"@.len() == 6);
    assert("delete"@ != "enter"@);
    assert("delete"@[0] != "return"@[0]);
    assert("delete"@ != "return"@);
    assert("delete"@ != "\\n"@);
    assert("delete"@ != "tab"@);
    assert("delete"@ != "\\t"@);
    assert("delete"@ != "esc"@);
    assert("delete"@[0] != "escape"@[0]);
    assert("delete"@ != "escape"@);
    assert("delete"@ != "space"@);
    assert("delete"@ != "backspace"@);
    assert("delete"@ != "bs"@);
}
proof fn lemma_key_del()
    ensures
        named_key_bytes("del"@) == Some(seq![0x1bu8, 0x5bu8, 0x33u8, 0x7eu8]),
{
    reveal_strlit("enter");
    reveal_strlit("return");
    reveal_strlit("\\n");
    reveal_strlit("tab");
    reveal_strlit("\\t");
    reveal_strlit("esc");
    reveal_strlit("escape");
    reveal_strlit("space");
    reveal_strlit("backspace");
    reveal_strlit("bs");
    reveal_strlit("delete");
    reveal_strlit("del");
    assert("enter"@.len() == 5);
    assert("return"@.len() == 6);
    assert("\\n"@.len() == 2);
    assert("tab"@.len() == 3);
    assert("\\t"@.len() == 2);
    assert("esc"@.len() == 3);
    assert("escape"@.len() == 6);
    assert("space"@.len() == 5);
    assert("backspace"@.len() == 9);
    assert("bs"@.len() == 2);
    assert("delete"@.len() == 6);
    assert("del"@.len() == 3);
    assert("del"@ != "enter"@);
    assert("del"@ != "return"@);
    assert("del"@ != "\\n"@);
    assert("del"@[0] != "tab"@[0]);
    assert("del"@ != "tab"@);
    assert("del"@ != "\\t"@);
    assert("del"@[0] != "esc"@[0]);
    assert("del"@ != "esc"@);
    assert("del"@ != "escape"@);
    assert("del"@ != "space"@);
    assert("del"@ != "backspace"@);
    assert("del"@ != "bs"@);
    assert("del"@ != "delete"@);
}
proof fn lemma_key_ins()
    ensures
        named_key_bytes("ins"@) == Some(seq![0x1bu8, 0x5bu8, 0x32u8, 0x7eu8]),
{
    reveal_strlit("enter");
    reveal_strlit("return");
    reveal_strlit("\\n");
    reveal_strlit("tab");
    reveal_strlit("\\t");
    reveal_strlit("esc");
    reveal_strlit("escape");
    reveal_strlit("space");
    reveal_strlit("backspace");
    reveal_strlit("bs");
    reveal_strlit("delete");
    reveal_strlit("del");
    reveal_strlit("ins");
    assert("enter"@.len() == 5);
    assert("return"@.len() == 6);
    assert("\\n"@.len() == 2);
    assert("tab"@.len() == 3);
    assert("\\t"@.len() == 2);
    assert("esc"@.len() == 3);
    assert("escape"@.len() == 6);
    assert("space"@.len() == 5);
    assert("backspace"@.len() == 9);
    assert("bs"@.len() == 2);
    assert("delete"@.len() == 6);
    assert("del"@.len() == 3);
    assert("ins"@.len() == 3);
    assert("ins"@ != "enter"@);
    assert("ins"@ != "return"@);
    assert("ins"@ != "\\n"@);
    assert("ins"@[0] != "tab"@[0]);
    assert("ins"@ != "tab"@);
    assert("ins"@ != "\\t"@);
    assert("ins"@[0] != "esc"@[0]);
    assert("ins"@ != "esc"@);
    assert("ins"@ != "escape"@);
    assert("ins"@ != "space"@);
    assert("ins"@ != "backspace"@);
    assert("ins"@ != "bs"@);
    assert("ins"@ != "delete"@);
    assert("ins"@[0] != "del"@[0]);
    assert("ins"@ != "del"@);
}
proof fn lemma_key_insert()
    ensures
        named_key_bytes("insert"@) == Some(seq![0x1bu8, 0x5bu8, 0x32u8, 0x7eu8]),
{
    reveal_strlit("enter");
    reveal_strlit("return");
    reveal_strlit("\\n");
    reveal_strlit("tab");
    reveal_strlit("\\t");
    reveal_strlit("esc");
    reveal_strlit("escape");
    reveal_strlit("space");
    reveal_strlit("backspace");
    reveal_strlit("bs");
    reveal_strlit("delete");
    reveal_strlit("del");
    reveal_strlit("ins");
    reveal_strlit("insert");
    assert("enter"@.len() == 5);
    assert("return"@.len() == 6);
    assert("\\n"@.len() == 2);
    assert("tab"@.len() == 3);
    assert("\\t"@.len() == 2);
    assert("esc"@.len() == 3);
    assert("escape"@.len() == 6);
    assert("space"@.len() == 5);
    assert("backspace"@.len() == 9);
    assert("bs"@.len() == 2);
    assert("delete"@.len() == 6);
    assert("del"@.len() == 3);
    assert("ins"@.len() == 3);
    assert("insert"@.len() == 6);
    assert("insert"@ != "enter"@);
    assert("insert"@[0] != "return"@[0]);
    assert("insert"@ != "return"@);
    assert("insert"@ != "\\n"@);
    assert("insert"@ != "tab"@);
    assert("insert"@ != "\\t"@);
    assert("insert"@ != "esc"@);
    assert("insert"@[0] != "escape"@[0]);
    assert("insert"@ != "escape"@);
    assert("insert"@ != "space"@);
    assert("insert"@ != "backspace"@);
    assert("insert"@ != "bs"@);
    assert("insert"@[0] != "delete"@[0]);
    assert("insert"@ != "delete"@);
    assert("insert"@ != "del"@);
    assert("insert"@ != "ins"@);
}
proof fn lemma_key_up()
    ensures
        named_key_bytes("up"@) == Some(seq![0x1bu8, 0x5bu8, 0x41u8]),
{
    reveal_strlit("enter");
    reveal_strlit("return");
    reveal_strlit("\\n");
    reveal_strlit("tab");
    reveal_strlit("\\t");
    reveal_strlit("esc");
    reveal_strlit("escape");
    reveal_strlit("space");
    reveal_strlit("backspace");
    reveal_strlit("bs");
    reveal_strlit("delete");
    reveal_strlit("del");
    reveal_strlit("ins");
    reveal_strlit("insert");
    reveal_strlit("up");
    assert("enter"@.len() == 5);
    assert("return"@.len() == 6);
    assert("\\n"@.len() == 2);
    assert("tab"@.len() == 3);
    assert("\\t"@.len() == 2);
    assert("esc"@.len() == 3);
    assert("escape"@.len() == 6);
    assert("space"@.len() == 5);
    assert("backspace"@.len() == 9);
    assert("bs"@.len() == 2);
    assert("delete"@.len() == 6);
    assert("del"@.len() == 3);
    assert("ins"@.len() == 3);
    assert("insert"@.len() == 6);
    assert("up"@.len() == 2);
    assert("up"@ != "enter"@);
    assert("up"@ != "return"@);
    assert("up"@[0] != "\\n"@[0]);
    assert("up"@ != "\\n"@);
    assert("up"@ != "tab"@);
    assert("up"@[0] != "\\t"@[0]);
    assert("up"@ != "\\t"@);
    assert("up"@ != "esc"@);
    assert("up"@ != "escape"@);
    assert("up"@ != "space"@);
    assert("up"@ != "backspace"@);
    assert("up"@[0] != "bs"@[0]);
    assert("up"@ != "bs"@);
    assert("up"@ != "delete"@);
    assert("up"@ != "del"@);
    assert("up"@ != "ins"@);
    assert("up"@ != "insert"@);
}
proof fn lemma_key_down()
    ensures
        named_key_bytes("down"@) == Some(seq![0x1bu8, 0x5bu8, 0x42u8]),
{
    reveal_strlit("enter");
    reveal_strlit("return");
    reveal_strlit("\\n");
    reveal_strlit("tab");
    reveal_strlit("\\t");
    reveal_strlit("esc");
    reveal_strlit("escape");
    reveal_strlit("space");
    reveal_strlit("backspace");
    reveal_strlit("bs");
    reveal_strlit("delete");
    reveal_strlit("del");
    reveal_strlit("ins");
    reveal_strlit("insert");
    reveal_strlit("up");
    reveal_strlit("down");
    assert("enter"@.len() == 5);
    assert("return"@.len() == 6);
    assert("\\n"@.len() == 2);
    assert("tab"@.len() == 3);
    assert("\\t"@.len() == 2);
    assert("esc"@.len() == 3);
    assert("escape"@.len() == 6);
    assert("space"@.len() == 5);
    assert("backspace"@.len() == 9);
    assert("bs"@.len() == 2);
    assert("delete"@.len() == 6);
    assert("del"@.len() == 3);
    assert("ins"@.len() == 3);
    assert("insert"@.len() == 6);
    assert("up"@.len() == 2);
    assert("down"@.len() == 4);
    assert("down"@ != "enter"@);
    assert("down"@ != "return"@);
    assert("down"@ != "\\n"@);
    assert("down"@ != "tab"@);
    assert("down"@ != "\\t"@);
    assert("down"@ != "esc"@);
    assert("down"@ != "escape"@);
    assert("down"@ != "space"@);
    assert("down"@ != "backspace"@);
    assert("down"@ != "bs"@);
    assert("down"@ != "delete"@);
    assert("down"@ != "del"@);
    assert("down"@ != "ins"@);
    assert("down"@ != "insert"@);
    assert("down"@ != "up"@);
}
proof fn lemma_key_right()
    ensures
        named_key_bytes("right"@) == Some(seq![0x1bu8, 0x5bu8, 0x43u8]),
{
    reveal_strlit("enter");
    reveal_strlit("return");
    reveal_strlit("\\n");
    reveal_strlit("tab");
    reveal_strlit("\\t");
    reveal_strlit("esc");
    reveal_strlit("escape");
    reveal_strlit("space");
    reveal_strlit("backspace");
    reveal_strlit("bs");
    reveal_strlit("delete");
    reveal_strlit("del");
    reveal_strlit("ins");
    reveal_strlit("insert");
    reveal_strlit("up");
    reveal_strlit("down");
    reveal_strlit("right");
    assert("enter"@.len() == 5);
    assert("return"@.len() == 6);
    assert("\\n"@.len() == 2);
    assert("tab"@.len() == 3);
    assert("\\t"@.len() == 2);
    assert("esc"@.len() == 3);
    assert("escape"@.len() == 6);
    assert("space"@.len() == 5);
    assert("backspace"@.len() == 9);
    assert("bs"@.len() == 2);
    assert("delete"@.len() == 6);
    assert("del"@.len() == 3);
    assert("ins"@.len() == 3);
    assert("insert"@.len() == 6);
    assert("up"@.len() == 2);
    assert("down"@.len() == 4);
    assert("right"@.len() == 5);
    assert("right"@[0] != "enter"@[0]);
    assert("right"@ != "enter"@);
    assert("right"@ != "return"@);
    assert("right"@ != "\\n"@);
    assert("right"@ != "tab"@);
    assert("right"@ != "\\t"@);
    assert("right"@ != "esc"@);
    assert("right"@ != "escape"@);
    assert("right"@[0] != "space"@[0]);
    assert("right"@ != "space"@);
    assert("right"@ != "backspace"@);
    assert("right"@ != "bs"@);
    assert("right"@ != "delete"@);
    assert("right"@ != "del"@);
    assert("right"@ != "ins"@);
    assert("right"@ != "insert"@);
    assert("right"@ != "up"@);
    assert("right"@ != "down"@);
}
proof fn lemma_key_left()
    ensures
        named_key_bytes("left"@) == Some(seq![0x1bu8, 0x5bu8, 0x44u8]),
{
    reveal_strlit("enter");
    reveal_strlit("return");
    reveal_strlit("\\n");
    reveal_strlit("tab");
    reveal_strlit("\\t");
    reveal_strlit("esc");
    reveal_strlit("escape");
    reveal_strlit("space");
    reveal_strlit("backspace");
    reveal_strlit("bs");
    reveal_strlit("delete");
    reveal_strlit("del");
    reveal_strlit("ins");
    reveal_strlit("insert");
    reveal_strlit("up");
    reveal_strlit("down");
    reveal_strlit("right");
    reveal_strlit("left");
    assert("enter"@.len() == 5);
    assert("return"@.len() == 6);
    assert("\\n"@.len() == 2);
    assert("tab"@.len() == 3);
    assert("\\t"@.len() == 2);
    assert("esc"@.len() == 3);
    assert("escape"@.len() == 6);
    assert("space"@.len() == 5);
    assert("backspace"@.len() == 9);
    assert("bs"@.len() == 2);
    assert("delete"@.len() == 6);
    assert("del"@.len() == 3);
    assert("ins"@.len() == 3);
    assert("insert"@.len() == 6);
    assert("up"@.len() == 2);
    assert("down"@.len() == 4);
    assert("right"@.len() == 5);
    assert("left"@.len() == 4);
    assert("left"@ != "enter"@);
    assert("left"@ != "return"@);
    assert("left"@ != "\\n"@);
    assert("left"@ != "tab"@);
    assert("left"@ != "\\t"@);
    assert("left"@ != "esc"@);
    assert("left"@ != "escape"@);
    assert("left"@ != "space"@);
    assert("left"@ != "backspace"@);
    assert("left"@ != "bs"@);
    assert("left"@ != "delete"@);
    assert("left"@ != "del"@);
    assert("left"@ != "ins"@);
    assert("left"@ != "insert"@);
    assert("left"@ != "up"@);
    assert("left"@[0] != "down"@[0]);
    assert("left"@ != "down"@);
    assert("left"@ != "right"@);
}
proof fn lemma_key_home()
    ensures
        named_key_bytes("home"@) == Some(seq![0x1bu8, 0x5bu8, 0x48u8]),
{
    reveal_strlit("enter");
    reveal_strlit("return");
    reveal_strlit("\\n");
    reveal_strlit("tab");
    reveal_strlit("\\t");
    reveal_strlit("esc");
    reveal_strlit("escape");
    reveal_strlit("space");
    reveal_strlit("backspace");
    reveal_strlit("bs");
    reveal_strlit("delete");
    reveal_strlit("del");
    reveal_strlit("ins");
    reveal_strlit("insert");
    reveal_strlit("up");
    reveal_strlit("down");
    reveal_strlit("right");
    reveal_strlit("left");
    reveal_strlit("home");
    assert("enter"@.len() == 5);
    assert("return"@.len() == 6);
    assert("\\n"@.len() == 2);
    assert("tab"@.len() == 3);
    assert("\\t"@.len() == 2);
    assert("esc"@.len() == 3);
    assert("escape"@.len() == 6);
    assert("space"@.len() == 5);
    assert("backspace"@.len() == 9);
    assert("bs"@.len() == 2);
    assert("delete"@.len() == 6);
    assert("del"@.len() == 3);
    assert("ins"@.len() == 3);
    assert("insert"@.len() == 6);
    assert("up"@.len() == 2);
    assert("down"@.len() == 4);
    assert("right"@.len() == 5);
    assert("left"@.len() == 4);
    assert("home"@.len() == 4);
    assert("home"@ != "enter"@);
    assert("home"@ != "return"@);
    assert("home"@ != "\\n"@);
    assert("home"@ != "tab"@);
    assert("home"@ != "\\t"@);
    assert("home"@ != "esc"@);
    assert("home"@ != "escape"@);
    assert("home"@ != "space"@);
    assert("home"@ != "backspace"@);
    assert("home"@ != "bs"@);
    assert("home"@ != "delete"@);
    assert("home"@ != "del"@);
    assert("home"@ != "ins"@);
    assert("home"@ != "insert"@);
    assert("home"@ != "up"@);
    assert("home"@[0] != "down"@[0]);
    assert("home"@ != "down"@);
    assert("home"@ != "right"@);
    assert("home"@[0] != "left"@[0]);
    assert("home"@ != "left"@);
}
proof fn lemma_key_end()
    ensures
        named_key_bytes("end"@) == Some(seq![0x1bu8, 0x5bu8, 0x46u8]),
{
    reveal_strlit("enter");
    reveal_strlit("return");
    reveal_strlit("\\n");
    reveal_strlit("tab");
    reveal_strlit("\\t");
    reveal_strlit("esc");
    reveal_strlit("escape");
    reveal_strlit("space");
    reveal_strlit("backspace");
    reveal_strlit("bs");
    reveal_strlit("delete");
    reveal_strlit("del");
    reveal_strlit("ins");
    reveal_strlit("insert");
    reveal_strlit("up");
    reveal_strlit("down");
    reveal_strlit("right");
    reveal_strlit("left");
    reveal_strlit("home");
    reveal_strlit("end");
    assert("enter"@.len() == 5);
    assert("return"@.len() == 6);
    assert("\\n"@.len() == 2);
    assert("tab"@.len() == 3);
    assert("\\t"@.len() == 2);
    assert("esc"@.len() == 3);
    assert("escape"@.len() == 6);
    assert("space"@.len() == 5);
    assert("backspace"@.len() == 9);
    assert("bs"@.len() == 2);
    assert("delete"@.len() == 6);
    assert("del"@.len() == 3);
    assert("ins"@.len() == 3);
    assert("insert"@.len() == 6);
    assert("up"@.len() == 2);
    assert("down"@.len() == 4);
    assert("right"@.len() == 5);
    assert("left"@.len() == 4);
    assert("home"@.len() == 4);
    assert("end"@.len() == 3);
    assert("end"@ != "enter"@);
    assert("end"@ != "return"@);
    assert("end"@ != "\\n"@);
    assert("end"@[0] != "tab"@[0]);
    assert("end"@ != "tab"@);
    assert("end"@ != "\\t"@);
    assert("end"@[1] != "esc"@[1]);
    assert("end"@ != "esc"@);
    assert("end"@ != "escape"@);
    assert("end"@ != "space"@);
    assert("end"@ != "backspace"@);
    assert("end"@ != "bs"@);
    assert("end"@ != "delete"@);
    assert("end"@[0] != "del"@[0]);
    assert("end"@ != "del"@);
    assert("end"@[0] != "ins"@[0]);
    assert("end"@ != "ins"@);
    assert("end"@ != "insert"@);
    assert("end"@ != "up"@);
    assert("end"@ != "down"@);
    assert("end"@ != "right"@);
    assert("end"@ != "left"@);
    assert("end"@ != "home"@);
}
proof fn lemma_key_pageup()
    ensures
        named_key_bytes("pageup"@) == Some(seq![0x1bu8, 0x5bu8, 0x35u8, 0x7eu8]),
{
    reveal_strlit("enter");
    reveal_strlit("return");
    reveal_strlit("\\n");
    reveal_strlit("tab");
    reveal_strlit("\\t");
    reveal_strlit("esc");
    reveal_strlit("escape");
    reveal_strlit("space");
    reveal_strlit("backspace");
    reveal_strlit("bs");
    reveal_strlit("delete");
    reveal_strlit("del");
    reveal_strlit("ins");
    reveal_strlit("insert");
    reveal_strlit("up");
    reveal_strlit("down");
    reveal_strlit("right");
    reveal_strlit("left");
    reveal_strlit("home");
    reveal_strlit("end");
    reveal_strlit("pageup");
    assert("enter"@.len() == 5);
    assert("return"@.len() == 6);
    assert("\\n"@.len() == 2);
    assert("tab"@.len() == 3);
    assert("\\t"@.len() == 2);
    assert("esc"@.len() == 3);
    assert("escape"@.len() == 6);
    assert("space"@.len() == 5);
    assert("backspace"@.len() == 9);
    assert("bs"@.len() == 2);
    assert("delete"@.len() == 6);
    assert("del"@.len() == 3);
    assert("ins"@.len() == 3);
    assert("insert"@.len() == 6);
    assert("up"@.len() == 2);
    assert("down"@.len() == 4);
    assert("right"@.len() == 5);
    assert("left"@.len() == 4);
    assert("home"@.len() == 4);
    assert("end"@.len() == 3);
    assert("pageup"@.len() == 6);
    assert("pageup"@ != "enter"@);
    assert("pageup"@[0] != "return"@[0]);
    assert("pageup"@ != "return"@);
    assert("pageup"@ != "\\n"@);
    assert("pageup"@ != "tab"@);
    assert("pageup"@ != "\\t"@);
    assert("pageup"@ != "esc"@);
    assert("pageup"@[0] != "escape"@[0]);
    assert("pageup"@ != "escape"@);
    assert("pageup"@ != "space"@);
    assert("pageup"@ != "backspace"@);
    assert("pageup"@ != "bs"@);
    assert("pageup"@[0] != "delete"@[0]);
    assert("pageup"@ != "delete"@);
    assert("pageup"@ != "del"@);
    assert("pageup"@ != "ins"@);
    assert("pageup"@[0] != "insert"@[0]);
    assert("pageup"@ != "insert"@);
    assert("pageup"@ != "up"@);
    assert("pageup"@ != "down"@);
    assert("pageup"@ != "right"@);
    assert("pageup"@ != "left"@);
    assert("pageup"@ != "home"@);
    assert("pageup"@ != "end"@);
}
proof fn lemma_key_pgup()
    ensures
        named_key_bytes("pgup"@) == Some(seq![0x1bu8, 0x5bu8, 0x35u8, 0x7eu8]),
{
    reveal_strlit("enter");
    reveal_strlit("return");
    reveal_strlit("\\n");
    reveal_strlit("tab");
    reveal_strlit("\\t");
    reveal_strlit("esc");
    reveal_strlit("escape");
    reveal_strlit("space");
    reveal_strlit("backspace");
    reveal_strlit("bs");
    reveal_strlit("delete");
    reveal_strlit("del");
    reveal_strlit("ins");
    reveal_strlit("insert");
    reveal_strlit("up");
    reveal_strlit("down");
    reveal_strlit("right");
    reveal_strlit("left");
    reveal_strlit("home");
    reveal_strlit("end");
    reveal_strlit("pageup");
    reveal_strlit("pgup");
    assert("enter"@.len() == 5);
    assert("return"@.len() == 6);
    assert("\\n"@.len() == 2);
    assert("tab"@.len() == 3);
    assert("\\t"@.len() == 2);
    assert("esc"@.len() == 3);
    assert("escape"@.len() == 6);
    assert("space"@.len() == 5);
    assert("backspace"@.len() == 9);
    assert("bs"@.len() == 2);
    assert("delete"@.len() == 6);
    assert("del"@.len() == 3);
    assert("ins"@.len() == 3);
    assert("insert"@.len() == 6);
    assert("up"@.len() == 2);
    assert("down"@.len() == 4);
    assert("right"@.len() == 5);
    assert("left"@.len() == 4);
    assert("home"@.len() == 4);
    assert("end"@.len() == 3);
    assert("pageup"@.len() == 6);
    assert("pgup"@.len() == 4);
    assert("pgup"@ != "enter"@);
    assert("pgup"@ != "return"@);
    assert("pgup"@ != "\\n"@);
    assert("pgup"@ != "tab"@);
    assert("pgup"@ != "\\t"@);
    assert("pgup"@ != "esc"@);
    assert("pgup"@ != "escape"@);
    assert("pgup"@ != "space"@);
    assert("pgup"@ != "backspace"@);
    assert("pgup"@ != "bs"@);
    assert("pgup"@ != "delete"@);
    assert("pgup"@ != "del"@);
    assert("pgup"@ != "ins"@);
    assert("pgup"@ != "insert"@);
    assert("pgup"@ != "up"@);
    assert("pgup"@[0] != "down"@[0]);
    assert("pgup"@ != "down"@);
    assert("pgup"@ != "right"@);
    assert("pgup"@[0] != "left"@[0]);
    assert("pgup"@ != "left"@);
    assert("pgup"@[0] != "home"@[0]);
    assert("pgup"@ != "home"@);
    assert("pgup"@ != "end"@);
    assert("pgup"@ != "pageup"@);
}
proof fn lemma_key_pagedown()
    ensures
        named_key_bytes("pagedown"@) == Some(seq![0x1bu8, 0x5bu8, 0x36u8, 0x7eu8]),
{
    reveal_strlit("enter");
    reveal_strlit("return");
    reveal_strlit("\\n");
    reveal_strlit("tab");
    reveal_strlit("\\t");
    reveal_strlit("esc");
    reveal_strlit("escape");
    reveal_strlit("space");
    reveal_strlit("backspace");
    reveal_strlit("bs");
    reveal_strlit("delete");
    reveal_strlit("del");
    reveal_strlit("ins");
    reveal_strlit("insert");
    reveal_strlit("up");
    reveal_strlit("down");
    reveal_strlit("right");
    reveal_strlit("left");
    reveal_strlit("home");
    reveal_strlit("end");
    reveal_strlit("pageup");
    reveal_strlit("pgup");
    reveal_strlit("pagedown");
    assert("enter"@.len() == 5);
    assert("return"@.len() == 6);
    assert("\\n"@.len() == 2);
    assert("tab"@.len() == 3);
    assert("\\t"@.len() == 2);
    assert("esc"@.len() == 3);
    assert("escape"@.len() == 6);
    assert("space"@.len() == 5);
    assert("backspace"@.len() == 9);
    assert("bs"@.len() == 2);
    assert("delete"@.len() == 6);
    assert("del"@.len() == 3);
    assert("ins"@.len() == 3);
    assert("insert"@.len() == 6);
    assert("up"@.len() == 2);
    assert("down"@.len() == 4);
    assert("right"@.len() == 5);
    assert("left"@.len() == 4);
    assert("home"@.len() == 4);
    assert("end"@.len() == 3);
    assert("pageup"@.len() == 6);
    assert("pgup"@.len() == 4);
    assert("pagedown"@.len() == 8);
    assert("pagedown"@ != "enter"@);
    assert("pagedown"@ != "return"@);
    assert("pagedown"@ != "\\n"@);
    assert("pagedown"@ != "tab"@);
    assert("pagedown"@ != "\\t"@);
    assert("pagedown"@ != "esc"@);
    assert("pagedown"@ != "escape"@);
    assert("pagedown"@ != "space"@);
    assert("pagedown"@ != "backspace"@);
    assert("pagedown"@ != "bs"@);
    assert("pagedown"@ != "delete"@);
    assert("pagedown"@ != "del"@);
    assert("pagedown"@ != "ins"@);
    assert("pagedown"@ != "insert"@);
    assert("pagedown"@ != "up"@);
    assert("pagedown"@ != "down"@);
    assert("pagedown"@ != "right"@);
    assert("pagedown"@ != "left"@);
    assert("pagedown"@ != "home"@);
    assert("pagedown"@ != "end"@);
    assert("pagedown"@ != "pageup"@);
    assert("pagedown"@ != "pgup"@);
}
proof fn lemma_key_pgdn()
    ensures
        named_key_bytes("pgdn"@) == Some(seq![0x1bu8, 0x5bu8, 0x36u8, 0x7eu8]),
{
    reveal_strlit("enter");
    reveal_strlit("return");
    reveal_strlit("\\n");
    reveal_strlit("tab");
    reveal_strlit("\\t");
    reveal_strlit("esc");
    reveal_strlit("escape");
    reveal_strlit("space");
    reveal_strlit("backspace");
    reveal_strlit("bs");
    reveal_strlit("delete");
    reveal_strlit("del");
    reveal_strlit("ins");
    reveal_strlit("insert");
    reveal_strlit("up");
    reveal_strlit("down");
    reveal_strlit("right");
    reveal_strlit("left");
    reveal_strlit("home");
    reveal_strlit("end");
    reveal_strlit("pageup");
    reveal_strlit("pgup");
    reveal_strlit("pagedown");
    reveal_strlit("pgdn");
    assert("enter"@.len() == 5);
    assert("return"@.len() == 6);
    assert("\\n"@.len() == 2);
    assert("tab"@.len() == 3);
    assert("\\t"@.len() == 2);
    assert("esc"@.len() == 3);
    assert("escape"@.len() == 6);
    assert("space"@.len() == 5);
    assert("backspace"@.len() == 9);
    assert("bs"@.len() == 2);
    assert("delete"@.len() == 6);
    assert("del"@.len() == 3);
    assert("ins"@.len() == 3);
    assert("insert"@.len() == 6);
    assert("up"@.len() == 2);
    assert("down"@.len() == 4);
    assert("right"@.len() == 5);
    assert("left"@.len() == 4);
    assert("home"@.len() == 4);
    assert("end"@.len() == 3);
    assert("pageup"@.len() == 6);
    assert("pgup"@.len() == 4);
    assert("pagedown"@.len() == 8);
    assert("pgdn"@.len() == 4);
    assert("pgdn"@ != "enter"@);
    assert("pgdn"@ != "return"@);
    assert("pgdn"@ != "\\n"@);
    assert("pgdn"@ != "tab"@);
    assert("pgdn"@ != "\\t"@);
    assert("pgdn"@ != "esc"@);
    assert("pgdn"@ != "escape"@);
    assert("pgdn"@ != "space"@);
    assert("pgdn"@ != "backspace"@);
    assert("pgdn"@ != "bs"@);
    assert("pgdn"@ != "delete"@);
    assert("pgdn"@ != "del"@);
    assert("pgdn"@ != "ins"@);
    assert("pgdn"@ != "insert"@);
    assert("pgdn"@ != "up"@);
    assert("pgdn"@[0] != "down"@[0]);
    assert("pgdn"@ != "down"@);
    assert("pgdn"@ != "right"@);
    assert("pgdn"@[0] != "left"@[0]);
    assert("pgdn"@ != "left"@);
    assert("pgdn"@[0] != "home"@[0]);
    assert("pgdn"@ != "home"@);
    assert("pgdn"@ != "end"@);
    assert("pgdn"@ != "pageup"@);
    assert("pgdn"@[2] != "pgup"@[2]);
    assert("pgdn"@ != "pgup"@);
    assert("pgdn"@ != "pagedown"@);
}
proof fn lemma_key_f1()
    ensures
        named_key_bytes("f1"@) == Some(seq![0x1bu8, 0x4fu8, 0x50u8]),
{
    reveal_strlit("enter");
    reveal_strlit("return");
    reveal_strlit("\\n");
    reveal_strlit("tab");
    reveal_strlit("\\t");
    reveal_strlit("esc");
    reveal_strlit("escape");
    reveal_strlit("space");
    reveal_strlit("backspace");
    reveal_strlit("bs");
    reveal_strlit("delete");
    reveal_strlit("del");
    reveal_strlit("ins");
    reveal_strlit("insert");
    reveal_strlit("up");
    reveal_strlit("down");
    reveal_strlit("right");
    reveal_strlit("left");
    reveal_strlit("home");
    reveal_strlit("end");
    reveal_strlit("pageup");
    reveal_strlit("pgup");
    reveal_strlit("pagedown");
    reveal_strlit("pgdn");
    reveal_strlit("f1");
    assert("enter"@.len() == 5);
    assert("return"@.len() == 6);
    assert("\\n"@.len() == 2);
    assert("tab"@.len() == 3);
    assert("\\t"@.len() == 2);
    assert("esc"@.len() == 3);
    assert("escape"@.len() == 6);
    assert("space"@.len() == 5);
    assert("backspace"@.len() == 9);
    assert("bs"@.len() == 2);
    assert("delete"@.len() == 6);
    assert("del"@.len() == 3);
    assert("ins"@.len() == 3);
    assert("insert"@.len() == 6);
    assert("up"@.len() == 2);
    assert("down"@.len() == 4);
    assert("right"@.len() == 5);
    assert("left"@.len() == 4);
    assert("home"@.len() == 4);
    assert("end"@.len() == 3);
    assert("pageup"@.len() == 6);
    assert("pgup"@.len() == 4);
    assert("pagedown"@.len() == 8);
    assert("pgdn"@.len() == 4);
    assert("f1"@.len() == 2);
    assert("f1"@ != "enter"@);
    assert("f1"@ != "return"@);
    assert("f1"@[0] != "\\n"@[0]);
    assert("f1"@ != "\\n"@);
    assert("f1"@ != "tab"@);
    assert("f1"@[0] != "\\t"@[0]);
    assert("f1"@ != "\\t"@);
    assert("f1"@ != "esc"@);
    assert("f1"@ != "escape"@);
    assert("f1"@ != "space"@);
    assert("f1"@ != "backspace"@);
    assert("f1"@[0] != "bs"@[0]);
    assert("f1"@ != "bs"@);
    assert("f1"@ != "delete"@);
    assert("f1"@ != "del"@);
    assert("f1"@ != "ins"@);
    assert("f1"@ != "insert"@);
    assert("f1"@[0] != "up"@[0]);
    assert("f1"@ != "up"@);
    assert("f1"@ != "down"@);
    assert("f1"@ != "right"@);
    assert("f1"@ != "left"@);
    assert("f1"@ != "home"@);
    assert("f1"@ != "end"@);
    assert("f1"@ != "pageup"@);
    assert("f1"@ != "pgup"@);
    assert("f1"@ != "pagedown"@);
    assert("f1"@ != "pgdn"@);
}
proof fn lemma_key_f2()
    ensures
        named_key_bytes("f2"@) == Some(seq![0x1bu8, 0x4fu8, 0x51u8]),
{
    reveal_strlit("enter");
    reveal_strlit("return");
    reveal_strlit("\\n");
    reveal_strlit("tab");
    reveal_strlit("\\t");
    reveal_strlit("esc");
    reveal_strlit("escape");
    reveal_strlit("space");
    reveal_strlit("backspace");
    reveal_strlit("bs");
    reveal_strlit("delete");
    reveal_strlit("del");
    reveal_strlit("ins");
    reveal_strlit("insert");
    reveal_strlit("up");
    reveal_strlit("down");
    reveal_strlit("right");
    reveal_strlit("left");
    reveal_strlit("home");
    reveal_strlit("end");
    reveal_strlit("pageup");
    reveal_strlit("pgup");
    reveal_strlit("pagedown");
    reveal_strlit("pgdn");
    reveal_strlit("f1");
    reveal_strlit("f2");
    assert("enter"@.len() == 5);
    assert("return"@.len() == 6);
    assert("\\n"@.len() == 2);
    assert("tab"@.len() == 3);
    assert("\\t"@.len() == 2);
    assert("esc"@.len() == 3);
    assert("escape"@.len() == 6);
    assert("space"@.len() == 5);
    assert("backspace"@.len() == 9);
    assert("bs"@.len() == 2);
    assert("delete"@.len() == 6);
    assert("del"@.len() == 3);
    assert("ins"@.len() == 3);
    assert("insert"@.len() == 6);
    assert("up"@.len() == 2);
    assert("down"@.len() == 4);
    assert("right"@.len() == 5);
    assert("left"@.len() == 4);
    assert("home"@.len() == 4);
    assert("end"@.len() == 3);
    assert("pageup"@.len() == 6);
    assert("pgup"@.len() == 4);
    assert("pagedown"@.len() == 8);
    assert("pgdn"@.len() == 4);
    assert("f1"@.len() == 2);
    assert("f2"@.len() == 2);
    assert("f2"@ != "enter"@);
    assert("f2"@ != "return"@);
    assert("f2"@[0] != "\\n"@[0]);
    assert("f2"@ != "\\n"@);
    assert("f2"@ != "tab"@);
    assert("f2"@[0] != "\\t"@[0]);
    assert("f2"@ != "\\t"@);
    assert("f2"@ != "esc"@);
    assert("f2"@ != "escape"@);
    assert("f2"@ != "space"@);
    assert("f2"@ != "backspace"@);
    assert("f2"@[0] != "bs"@[0]);
    assert("f2"@ != "bs"@);
    assert("f2"@ != "delete"@);
    assert("f2"@ != "del"@);
    assert("f2"@ != "ins"@);
    assert("f2"@ != "insert"@);
    assert("f2"@[0] != "up"@[0]);
    assert("f2"@ != "up"@);
    assert("f2"@ != "down"@);
    assert("f2"@ != "right"@);
    assert("f2"@ != "left"@);
    assert("f2"@ != "home"@);
    assert("f2"@ != "end"@);
    assert("f2"@ != "pageup"@);
    assert("f2"@ != "pgup"@);
    assert("f2"@ != "pagedown"@);
    assert("f2"@ != "pgdn"@);
    assert("f2"@[1] != "f1"@[1]);
    assert("f2"@ != "f1"@);
}
proof fn lemma_key_f3()
    ensures
        named_key_bytes("f3"@) == Some(seq![0x1bu8, 0x4fu8, 0x52u8]),
{
    reveal_strlit("enter");
    reveal_strlit("return");
    reveal_strlit("\\n");
    reveal_strlit("tab");
    reveal_strlit("\\t");
    reveal_strlit("esc");
    reveal_strlit("escape");
    reveal_strlit("space");
    reveal_strlit("backspace");
    reveal_strlit("bs");
    reveal_strlit("delete");
    reveal_strlit("del");
    reveal_strlit("ins");
    reveal_strlit("insert");
    reveal_strlit("up");
    reveal_strlit("down");
    reveal_strlit("right");
    reveal_strlit("left");
    reveal_strlit("home");
    reveal_strlit("end");
    reveal_strlit("pageup");
    reveal_strlit("pgup");
    reveal_strlit("pagedown");
    reveal_strlit("pgdn");
    reveal_strlit("f1");
    reveal_strlit("f2");
    reveal_strlit("f3");
    assert("enter"@.len() == 5);
    assert("return"@.len() == 6);
    assert("\\n"@.len() == 2);
    assert("tab"@.len() == 3);
    assert("\\t"@.len() == 2);
    assert("esc"@.len() == 3);
    assert("escape"@.len() == 6);
    assert("space"@.len() == 5);
    assert("backspace"@.len() == 9);
    assert("bs"@.len() == 2);
    assert("delete"@.len() == 6);
    assert("del"@.len() == 3);
    assert("ins"@.len() == 3);
    assert("insert"@.len() == 6);
    assert("up"@.len() == 2);
    assert("down"@.len() == 4);
    assert("right"@.len() == 5);
    assert("left"@.len() == 4);
    assert("home"@.len() == 4);
    assert("end"@.len() == 3);
    assert("pageup"@.len() == 6);
    assert("pgup"@.len() == 4);
    assert("pagedown"@.len() == 8);
    assert("pgdn"@.len() == 4);
    assert("f1"@.len() == 2);
    assert("f2"@.len() == 2);
    assert("f3"@.len() == 2);
    assert("f3"@ != "enter"@);
    assert("f3"@ != "return"@);
    assert("f3"@[0] != "\\n"@[0]);
    assert("f3"@ != "\\n"@);
    assert("f3"@ != "tab"@);
    assert("f3"@[0] != "\\t"@[0]);
    assert("f3"@ != "\\t"@);
    assert("f3"@ != "esc"@);
    assert("f3"@ != "escape"@);
    assert("f3"@ != "space"@);
    assert("f3"@ != "backspace"@);
    assert("f3"@[0] != "bs"@[0]);
    assert("f3"@ != "bs"@);
    assert("f3"@ != "delete"@);
    assert("f3"@ != "del"@);
    assert("f3"@ != "ins"@);
    assert("f3"@ != "insert"@);
    assert("f3"@[0] != "up"@[0]);
    assert("f3"@ != "up"@);
    assert("f3"@ != "down"@);
    assert("f3"@ != "right"@);
    assert("f3"@ != "left"@);
    assert("f3"@ != "home"@);
    assert("f3"@ != "end"@);
    assert("f3"@ != "pageup"@);
    assert("f3"@ != "pgup"@);
    assert("f3"@ != "pagedown"@);
    assert("f3"@ != "pgdn"@);
    assert("f3"@[1] != "f1"@[1]);
    assert("f3"@ != "f1"@);
    assert("f3"@[1] != "f2"@[1]);
    assert("f3"@ != "f2"@);
}
proof fn lemma_key_f4()
    ensures
        named_key_bytes("f4"@) == Some(seq![0x1bu8, 0x4fu8, 0x53u8]),
{
    reveal_strlit("enter");
    reveal_strlit("return");
    reveal_strlit("\\n");
    reveal_strlit("tab");
    reveal_strlit("\\t");
    reveal_strlit("esc");
    reveal_strlit("escape");
    reveal_strlit("space");
    reveal_strlit("backspace");
    reveal_strlit("bs");
    reveal_strlit("delete");
    reveal_strlit("del");
    reveal_strlit("ins");
    reveal_strlit("insert");
    reveal_strlit("up");
    reveal_strlit("down");
    reveal_strlit("right");
    reveal_strlit("left");
    reveal_strlit("home");
    reveal_strlit("end");
    reveal_strlit("pageup");
    reveal_strlit("pgup");
    reveal_strlit("pagedown");
    reveal_strlit("pgdn");
    reveal_strlit("f1");
    reveal_strlit("f2");
    reveal_strlit("f3");
    reveal_strlit("f4");
    assert("enter"@.len() == 5);
    assert("return"@.len() == 6);
    assert("\\n"@.len() == 2);
    assert("tab"@.len() == 3);
    assert("\\t"@.len() == 2);
    assert("esc"@.len() == 3);
    assert("escape"@.len() == 6);
    assert("space"@.len() == 5);
    assert("backspace"@.len() == 9);
    assert("bs"@.len() == 2);
    assert("delete"@.len() == 6);
    assert("del"@.len() == 3);
    assert("ins"@.len() == 3);
    assert("insert"@.len() == 6);
    assert("up"@.len() == 2);
    assert("down"@.len() == 4);
    assert("right"@.len() == 5);
    assert("left"@.len() == 4);
    assert("home"@.len() == 4);
    assert("end"@.len() == 3);
    assert("pageup"@.len() == 6);
    assert("pgup"@.len() == 4);
    assert("pagedown"@.len() == 8);
    assert("pgdn"@.len() == 4);
    assert("f1"@.len() == 2);
    assert("f2"@.len() == 2);
    assert("f3"@.len() == 2);
    assert("f4"@.len() == 2);
    assert("f4"@ != "enter"@);
    assert("f4"@ != "return"@);
    assert("f4"@[0] != "\\n"@[0]);
    assert("f4"@ != "\\n"@);
    assert("f4"@ != "tab"@);
    assert("f4"@[0] != "\\t"@[0]);
    assert("f4"@ != "\\t"@);
    assert("f4"@ != "esc"@);
    assert("f4"@ != "escape"@);
    assert("f4"@ != "space"@);
    assert("f4"@ != "backspace"@);
    assert("f4"@[0] != "bs"@[0]);
    assert("f4"@ != "bs"@);
    assert("f4"@ != "delete"@);
    assert("f4"@ != "del"@);
    assert("f4"@ != "ins"@);
    assert("f4"@ != "insert"@);
    assert("f4"@[0] != "up"@[0]);
    assert("f4"@ != "up"@);
    assert("f4"@ != "down"@);
    assert("f4"@ != "right"@);
    assert("f4"@ != "left"@);
    assert("f4"@ != "home"@);
    assert("f4"@ != "end"@);
    assert("f4"@ != "pageup"@);
    assert("f4"@ != "pgup"@);
    assert("f4"@ != "pagedown"@);
    assert("f4"@ != "pgdn"@);
    assert("f4"@[1] != "f1"@[1]);
    assert("f4"@ != "f1"@);
    assert("f4"@[1] != "f2"@[1]);
    assert("f4"@ != "f2"@);
    assert("f4"@[1] != "f3"@[1]);
    assert("f4"@ != "f3"@);
}
proof fn lemma_key_f5()
    ensures
        named_key_bytes("f5"@) == Some(seq![0x1bu8, 0x5bu8, 0x31u8, 0x35u8, 0x7eu8]),
{
    reveal_strlit("enter");
    reveal_strlit("return");
    reveal_strlit("\\n");
    reveal_strlit("tab");
    reveal_strlit("\\t");
    reveal_strlit("esc");
    reveal_strlit("escape");
    reveal_strlit("space");
    reveal_strlit("backspace");
    reveal_strlit("bs");
    reveal_strlit("delete");
    reveal_strlit("del");
    reveal_strlit("ins");
    reveal_strlit("insert");
    reveal_strlit("up");
    reveal_strlit("down");
    reveal_strlit("right");
    reveal_strlit("left");
    reveal_strlit("home");
    reveal_strlit("end");
    reveal_strlit("pageup");
    reveal_strlit("pgup");
    reveal_strlit("pagedown");
    reveal_strlit("pgdn");
    reveal_strlit("f1");
    reveal_strlit("f2");
    reveal_strlit("f3");
    reveal_strlit("f4");
    reveal_strlit("f5");
    assert("enter"@.len() == 5);
    assert("return"@.len() == 6);
    assert("\\n"@.len() == 2);
    assert("tab"@.len() == 3);
    assert("\\t"@.len() == 2);
    assert("esc"@.len() == 3);
    assert("escape"@.len() == 6);
    assert("space"@.len() == 5);
    assert("backspace"@.len() == 9);
    assert("bs"@.len() == 2);
    assert("delete"@.len() == 6);
    assert("del"@.len() == 3);
    assert("ins"@.len() == 3);
    assert("insert"@.len() == 6);
    assert("up"@.len() == 2);
    assert("down"@.len() == 4);
    assert("right"@.len() == 5);
    assert("left"@.len() == 4);
    assert("home"@.len() == 4);
    assert("end"@.len() == 3);
    assert("pageup"@.len() == 6);
    assert("pgup"@.len() == 4);
    assert("pagedown"@.len() == 8);
    assert("pgdn"@.len() == 4);
    assert("f1"@.len() == 2);
    assert("f2"@.len() == 2);
    assert("f3"@.len() == 2);
    assert("f4"@.len() == 2);
    assert("f5"@.len() == 2);
    assert("f5"@ != "enter"@);
    assert("f5"@ != "return"@);
    assert("f5"@[0] != "\\n"@[0]);
    assert("f5"@ != "\\n"@);
    assert("f5"@ != "tab"@);
    assert("f5"@[0] != "\\t"@[0]);
    assert("f5"@ != "\\t"@);
    assert("f5"@ != "esc"@);
    assert("f5"@ != "escape"@);
    assert("f5"@ != "space"@);
    assert("f5"@ != "backspace"@);
    assert("f5"@[0] != "bs"@[0]);
    assert("f5"@ != "bs"@);
    assert("f5"@ != "delete"@);
    assert("f5"@ != "del"@);
    assert("f5"@ != "ins"@);
    assert("f5"@ != "insert"@);
    assert("f5"@[0] != "up"@[0]);
    assert("f5"@ != "up"@);
    assert("f5"@ != "down"@);
    assert("f5"@ != "right"@);
    assert("f5"@ != "left"@);
    assert("f5"@ != "home"@);
    assert("f5"@ != "end"@);
    assert("f5"@ != "pageup"@);
    assert("f5"@ != "pgup"@);
    assert("f5"@ != "pagedown"@);
    assert("f5"@ != "pgdn"@);
    assert("f5"@[1] != "f1"@[1]);
    assert("f5"@ != "f1"@);
    assert("f5"@[1] != "f2"@[1]);
    assert("f5"@ != "f2"@);
    assert("f5"@[1] != "f3"@[1]);
    assert("f5"@ != "f3"@);
    assert("f5"@[1] != "f4"@[1]);
    assert("f5"@ != "f4"@);
}
proof fn lemma_key_f6()
    ensures
        named_key_bytes("f6"@) == Some(seq![0x1bu8, 0x5bu8, 0x31u8, 0x37u8, 0x7eu8]),
{
    reveal_strlit("enter");
    reveal_strlit("return");
    reveal_strlit("\\n");
    reveal_strlit("tab");
    reveal_strlit("\\t");
    reveal_strlit("esc");
    reveal_strlit("escape");
    reveal_strlit("space");
    reveal_strlit("backspace");
    reveal_strlit("bs");
    reveal_strlit("delete");
    reveal_strlit("del");
    reveal_strlit("ins");
    reveal_strlit("insert");
    reveal_strlit("up");
    reveal_strlit("down");
    reveal_strlit("right");
    reveal_strlit("left");
    reveal_strlit("home");
    reveal_strlit("end");
    reveal_strlit("pageup");
    reveal_strlit("pgup");
    reveal_strlit("pagedown");
    reveal_strlit("pgdn");
    reveal_strlit("f1");
    reveal_strlit("f2");
    reveal_strlit("f3");
    reveal_strlit("f4");
    reveal_strlit("f5");
    reveal_strlit("f6");
    assert("enter"@.len() == 5);
    assert("return"@.len() == 6);
    assert("\\n"@.len() == 2);
    assert("tab"@.len() == 3);
    assert("\\t"@.len() == 2);
    assert("esc"@.len() == 3);
    assert("escape"@.len() == 6);
    assert("space"@.len() == 5);
    assert("backspace"@.len() == 9);
    assert("bs"@.len() == 2);
    assert("delete"@.len() == 6);
    assert("del"@.len() == 3);
    assert("ins"@.len() == 3);
    assert("insert"@.len() == 6);
    assert("up"@.len() == 2);
    assert("down"@.len() == 4);
    assert("right"@.len() == 5);
    assert("left"@.len() == 4);
    assert("home"@.len() == 4);
    assert("end"@.len() == 3);
    assert("pageup"@.len() == 6);
    assert("pgup"@.len() == 4);
    assert("pagedown"@.len() == 8);
    assert("pgdn"@.len() == 4);
    assert("f1"@.len() == 2);
    assert("f2"@.len() == 2);
    assert("f3"@.len() == 2);
    assert("f4"@.len() == 2);
    assert("f5"@.len() == 2);
    assert("f6"@.len() == 2);
    assert("f6"@ != "enter"@);
    assert("f6"@ != "return"@);
    assert("f6"@[0] != "\\n"@[0]);
    assert("f6"@ != "\\n"@);
    assert("f6"@ != "tab"@);
    assert("f6"@[0] != "\\t"@[0]);
    assert("f6"@ != "\\t"@);
    assert("f6"@ != "esc"@);
    assert("f6"@ != "escape"@);
    assert("f6"@ != "space"@);
    assert("f6"@ != "backspace"@);
    assert("f6"@[0] != "bs"@[0]);
    assert("f6"@ != "bs"@);
    assert("f6"@ != "delete"@);
    assert("f6"@ != "del"@);
    assert("f6"@ != "ins"@);
    assert("f6"@ != "insert"@);
    assert("f6"@[0] != "up"@[0]);
    assert("f6"@ != "up"@);
    assert("f6"@ != "down"@);
    assert("f6"@ != "right"@);
    assert("f6"@ != "left"@);
    assert("f6"@ != "home"@);
    assert("f6"@ != "end"@);
    assert("f6"@ != "pageup"@);
    assert("f6"@ != "pgup"@);
    assert("f6"@ != "pagedown"@);
    assert("f6"@ != "pgdn"@);
    assert("f6"@[1] != "f1"@[1]);
    assert("f6"@ != "f1"@);
    assert("f6"@[1] != "f2"@[1]);
    assert("f6"@ != "f2"@);
    assert("f6"@[1] != "f3"@[1]);
    assert("f6"@ != "f3"@);
    assert("f6"@[1] != "f4"@[1]);
    assert("f6"@ != "f4"@);
    assert("f6"@[1] != "f5"@[1]);
    assert("f6"@ != "f5"@);
}
proof fn lemma_key_f7()
    ensures
        named_key_bytes("f7"@) == Some(seq![0x1bu8, 0x5bu8, 0x31u8, 0x38u8, 0x7eu8]),
{
    reveal_strlit("enter");
    reveal_strlit("return");
    reveal_strlit("\\n");
    reveal_strlit("tab");
    reveal_strlit("\\t");
    reveal_strlit("esc");
    reveal_strlit("escape");
    reveal_strlit("space");
    reveal_strlit("backspace");
    reveal_strlit("bs");
    reveal_strlit("delete");
    reveal_strlit("del");
    reveal_strlit("ins");
    reveal_strlit("insert");
    reveal_strlit("up");
    reveal_strlit("down");
    reveal_strlit("right");
    reveal_strlit("left");
    reveal_strlit("home");
    reveal_strlit("end");
    reveal_strlit("pageup");
    reveal_strlit("pgup");
    reveal_strlit("pagedown");
    reveal_strlit("pgdn");
    reveal_strlit("f1");
    reveal_strlit("f2");
    reveal_strlit("f3");
    reveal_strlit("f4");
    reveal_strlit("f5");
    reveal_strlit("f6");
    reveal_strlit("f7");
    assert("enter"@.len() == 5);
    assert("return"@.len() == 6);
    assert("\\n"@.len() == 2);
    assert("tab"@.len() == 3);
    assert("\\t"@.len() == 2);
    assert("esc"@.len() == 3);
    assert("escape"@.len() == 6);
    assert("space"@.len() == 5);
    assert("backspace"@.len() == 9);
    assert("bs"@.len() == 2);
    assert("delete"@.len() == 6);
    assert("del"@.len() == 3);
    assert("ins"@.len() == 3);
    assert("insert"@.len() == 6);
    assert("up"@.len() == 2);
    assert("down"@.len() == 4);
    assert("right"@.len() == 5);
    assert("left"@.len() == 4);
    assert("home"@.len() == 4);
    assert("end"@.len() == 3);
    assert("pageup"@.len() == 6);
    assert("pgup"@.len() == 4);
    assert("pagedown"@.len() == 8);
    assert("pgdn"@.len() == 4);
    assert("f1"@.len() == 2);
    assert("f2"@.len() == 2);
    assert("f3"@.len() == 2);
    assert("f4"@.len() == 2);
    assert("f5"@.len() == 2);
    assert("f6"@.len() == 2);
    assert("f7"@.len() == 2);
    assert("f7"@ != "enter"@);
    assert("f7"@ != "return"@);
    assert("f7"@[0] != "\\n"@[0]);
    assert("f7"@ != "\\n"@);
    assert("f7"@ != "tab"@);
    assert("f7"@[0] != "\\t"@[0]);
    assert("f7"@ != "\\t"@);
    assert("f7"@ != "esc"@);
    assert("f7"@ != "escape"@);
    assert("f7"@ != "space"@);
    assert("f7"@ != "backspace"@);
    assert("f7"@[0] != "bs"@[0]);
    assert("f7"@ != "bs"@);
    assert("f7"@ != "delete"@);
    assert("f7"@ != "del"@);
    assert("f7"@ != "ins"@);
    assert("f7"@ != "insert"@);
    assert("f7"@[0] != "up"@[0]);
    assert("f7"@ != "up"@);
    assert("f7"@ != "down"@);
    assert("f7"@ != "right"@);
    assert("f7"@ != "left"@);
    assert("f7"@ != "home"@);
    assert("f7"@ != "end"@);
    assert("f7"@ != "pageup"@);
    assert("f7"@ != "pgup"@);
    assert("f7"@ != "pagedown"@);
    assert("f7"@ != "pgdn"@);
    assert("f7"@[1] != "f1"@[1]);
    assert("f7"@ != "f1"@);
    assert("f7"@[1] != "f2"@[1]);
    assert("f7"@ != "f2"@);
    assert("f7"@[1] != "f3"@[1]);
    assert("f7"@ != "f3"@);
    assert("f7"@[1] != "f4"@[1]);
    assert("f7"@ != "f4"@);
    assert("f7"@[1] != "f5"@[1]);
    assert("f7"@ != "f5"@);
    assert("f7"@[1] != "f6"@[1]);
    assert("f7"@ != "f6"@);
}
proof fn lemma_key_f8()
    ensures
        named_key_bytes("f8"@) == Some(seq![0x1bu8, 0x5bu8, 0x31u8, 0x39u8, 0x7eu8]),
{
    reveal_strlit("enter");
    reveal_strlit("return");
    reveal_strlit("\\n");
    reveal_strlit("tab");
    reveal_strlit("\\t");
    reveal_strlit("esc");
    reveal_strlit("escape");
    reveal_strlit("space");
    reveal_strlit("backspace");
    reveal_strlit("bs");
    reveal_strlit("delete");
    reveal_strlit("del");
    reveal_strlit("ins");
    reveal_strlit("insert");
    reveal_strlit("up");
    reveal_strlit("down");
    reveal_strlit("right");
    reveal_strlit("left");
    reveal_strlit("home");
    reveal_strlit("end");
    reveal_strlit("pageup");
    reveal_strlit("pgup");
    reveal_strlit("pagedown");
    reveal_strlit("pgdn");
    reveal_strlit("f1");
    reveal_strlit("f2");
    reveal_strlit("f3");
    reveal_strlit("f4");
    reveal_strlit("f5");
    reveal_strlit("f6");
    reveal_strlit("f7");
    reveal_strlit("f8");
    assert("enter"@.len() == 5);
    assert("return"@.len() == 6);
    assert("\\n"@.len() == 2);
    assert("tab"@.len() == 3);
    assert("\\t"@.len() == 2);
    assert("esc"@.len() == 3);
    assert("escape"@.len() == 6);
    assert("space"@.len() == 5);
    assert("backspace"@.len() == 9);
    assert("bs"@.len() == 2);
    assert("delete"@.len() == 6);
    assert("del"@.len() == 3);
    assert("ins"@.len() == 3);
    assert("insert"@.len() == 6);
    assert("up"@.len() == 2);
    assert("down"@.len() == 4);
    assert("right"@.len() == 5);
    assert("left"@.len() == 4);
    assert("home"@.len() == 4);
    assert("end"@.len() == 3);
    assert("pageup"@.len() == 6);
    assert("pgup"@.len() == 4);
    assert("pagedown"@.len() == 8);
    assert("pgdn"@.len() == 4);
    assert("f1"@.len() == 2);
    assert("f2"@.len() == 2);
    assert("f3"@.len() == 2);
    assert("f4"@.len() == 2);
    assert("f5"@.len() == 2);
    assert("f6"@.len() == 2);
    assert("f7"@.len() == 2);
    assert("f8"@.len() == 2);
    assert("f8"@ != "enter"@);
    assert("f8"@ != "return"@);
    assert("f8"@[0] != "\\n"@[0]);
    assert("f8"@ != "\\n"@);
    assert("f8"@ != "tab"@);
    assert("f8"@[0] != "\\t"@[0]);
    assert("f8"@ != "\\t"@);
    assert("f8"@ != "esc"@);
    assert("f8"@ != "escape"@);
    assert("f8"@ != "space"@);
    assert("f8"@ != "backspace"@);
    assert("f8"@[0] != "bs"@[0]);
    assert("f8"@ != "bs"@);
    assert("f8"@ != "delete"@);
    assert("f8"@ != "del"@);
    assert("f8"@ != "ins"@);
    assert("f8"@ != "insert"@);
    assert("f8"@[0] != "up"@[0]);
    assert("f8"@ != "up"@);
    assert("f8"@ != "down"@);
    assert("f8"@ != "right"@);
    assert("f8"@ != "left"@);
    assert("f8"@ != "home"@);
    assert("f8"@ != "end"@);
    assert("f8"@ != "pageup"@);
    assert("f8"@ != "pgup"@);
    assert("f8"@ != "pagedown"@);
    assert("f8"@ != "pgdn"@);
    assert("f8"@[1] != "f1"@[1]);
    assert("f8"@ != "f1"@);
    assert("f8"@[1] != "f2"@[1]);
    assert("f8"@ != "f2"@);
    assert("f8"@[1] != "f3"@[1]);
    assert("f8"@ != "f3"@);
    assert("f8"@[1] != "f4"@[1]);
    assert("f8"@ != "f4"@);
    assert("f8"@[1] != "f5"@[1]);
    assert("f8"@ != "f5"@);
    assert("f8"@[1] != "f6"@[1]);
    assert("f8"@ != "f6"@);
    assert("f8"@[1] != "f7"@[1]);
    assert("f8"@ != "f7"@);
}
proof fn lemma_key_f9()
    ensures
        named_key_bytes("f9"@) == Some(seq![0x1bu8, 0x5bu8, 0x32u8, 0x30u8, 0x7eu8]),
{
    reveal_strlit("enter");
    reveal_strlit("return");
    reveal_strlit("\\n");
    reveal_strlit("tab");
    reveal_strlit("\\t");
    reveal_strlit("esc");
    reveal_strlit("escape");
    reveal_strlit("space");
    reveal_strlit("backspace");
    reveal_strlit("bs");
    reveal_strlit("delete");
    reveal_strlit("del");
    reveal_strlit("ins");
    reveal_strlit("insert");
    reveal_strlit("up");
    reveal_strlit("down");
    reveal_strlit("right");
    reveal_strlit("left");
    reveal_strlit("home");
    reveal_strlit("end");
    reveal_strlit("pageup");
    reveal_strlit("pgup");
    reveal_strlit("pagedown");
    reveal_strlit("pgdn");
    reveal_strlit("f1");
    reveal_strlit("f2");
    reveal_strlit("f3");
    reveal_strlit("f4");
    reveal_strlit("f5");
    reveal_strlit("f6");
    reveal_strlit("f7");
    reveal_strlit("f8");
    reveal_strlit("f9");
    assert("enter"@.len() == 5);
    assert("return"@.len() == 6);
    assert("\\n"@.len() == 2);
    assert("tab"@.len() == 3);
    assert("\\t"@.len() == 2);
    assert("esc"@.len() == 3);
    assert("escape"@.len() == 6);
    assert("space"@.len() == 5);
    assert("backspace"@.len() == 9);
    assert("bs"@.len() == 2);
    assert("delete"@.len() == 6);
    assert("del"@.len() == 3);
    assert("ins"@.len() == 3);
    assert("insert"@.len() == 6);
    assert("up"@.len() == 2);
    assert("down"@.len() == 4);
    assert("right"@.len() == 5);
    assert("left"@.len() == 4);
    assert("home"@.len() == 4);
    assert("end"@.len() == 3);
    assert("pageup"@.len() == 6);
    assert("pgup"@.len() == 4);
    assert("pagedown"@.len() == 8);
    assert("pgdn"@.len() == 4);
    assert("f1"@.len() == 2);
    assert("f2"@.len() == 2);
    assert("f3"@.len() == 2);
    assert("f4"@.len() == 2);
    assert("f5"@.len() == 2);
    assert("f6"@.len() == 2);
    assert("f7"@.len() == 2);
    assert("f8"@.len() == 2);
    assert("f9"@.len() == 2);
    assert("f9"@ != "enter"@);
    assert("f9"@ != "return"@);
    assert("f9"@[0] != "\\n"@[0]);
    assert("f9"@ != "\\n"@);
    assert("f9"@ != "tab"@);
    assert("f9"@[0] != "\\t"@[0]);
    assert("f9"@ != "\\t"@);
    assert("f9"@ != "esc"@);
    assert("f9"@ != "escape"@);
    assert("f9"@ != "space"@);
    assert("f9"@ != "backspace"@);
    assert("f9"@[0] != "bs"@[0]);
    assert("f9"@ != "bs"@);
    assert("f9"@ != "delete"@);
    assert("f9"@ != "del"@);
    assert("f9"@ != "ins"@);
    assert("f9"@ != "insert"@);
    assert("f9"@[0] != "up"@[0]);
    assert("f9"@ != "up"@);
    assert("f9"@ != "down"@);
    assert("f9"@ != "right"@);
    assert("f9"@ != "left"@);
    assert("f9"@ != "home"@);
    assert("f9"@ != "end"@);
    assert("f9"@ != "pageup"@);
    assert("f9"@ != "pgup"@);
    assert("f9"@ != "pagedown"@);
    assert("f9"@ != "pgdn"@);
    assert("f9"@[1] != "f1"@[1]);
    assert("f9"@ != "f1"@);
    assert("f9"@[1] != "f2"@[1]);
    assert("f9"@ != "f2"@);
    assert("f9"@[1] != "f3"@[1]);
    assert("f9"@ != "f3"@);
    assert("f9"@[1] != "f4"@[1]);
    assert("f9"@ != "f4"@);
    assert("f9"@[1] != "f5"@[1]);
    assert("f9"@ != "f5"@);
    assert("f9"@[1] != "f6"@[1]);
    assert("f9"@ != "f6"@);
    assert("f9"@[1] != "f7"@[1]);
    assert("f9"@ != "f7"@);
    assert("f9"@[1] != "f8"@[1]);
    assert("f9"@ != "f8"@);
}
proof fn lemma_key_f10()
    ensures
        named_key_bytes("f10"@) == Some(seq![0x1bu8, 0x5bu8, 0x32u8, 0x31u8, 0x7eu8]),
{
    reveal_strlit("enter");
    reveal_strlit("return");
    reveal_strlit("\\n");
    reveal_strlit("tab");
    reveal_strlit("\\t");
    reveal_strlit("esc");
    reveal_strlit("escape");
    reveal_strlit("space");
    reveal_strlit("backspace");
    reveal_strlit("bs");
    reveal_strlit("delete");
    reveal_strlit("del");
    reveal_strlit("ins");
    reveal_strlit("insert");
    reveal_strlit("up");
    reveal_strlit("down");
    reveal_strlit("right");
    reveal_strlit("left");
    reveal_strlit("home");
    reveal_strlit("end");
    reveal_strlit("pageup");
    reveal_strlit("pgup");
    reveal_strlit("pagedown");
    reveal_strlit("pgdn");
    reveal_strlit("f1");
    reveal_strlit("f2");
    reveal_strlit("f3");
    reveal_strlit("f4");
    reveal_strlit("f5");
    reveal_strlit("f6");
    reveal_strlit("f7");
    reveal_strlit("f8");
    reveal_strlit("f9");
    reveal_strlit("f10");
    assert("enter"@.len() == 5);
    assert("return"@.len() == 6);
    assert("\\n"@.len() == 2);
    assert("tab"@.len() == 3);
    assert("\\t"@.len() == 2);
    assert("esc"@.len() == 3);
    assert("escape"@.len() == 6);
    assert("space"@.len() == 5);
    assert("backspace"@.len() == 9);
    assert("bs"@.len() == 2);
    assert("delete"@.len() == 6);
    assert("del"@.len() == 3);
    assert("ins"@.len() == 3);
    assert("insert"@.len() == 6);
    assert("up"@.len() == 2);
    assert("down"@.len() == 4);
    assert("right"@.len() == 5);
    assert("left"@.len() == 4);
    assert("home"@.len() == 4);
    assert("end"@.len() == 3);
    assert("pageup"@.len() == 6);
    assert("pgup"@.len() == 4);
    assert("pagedown"@.len() == 8);
    assert("pgdn"@.len() == 4);
    assert("f1"@.len() == 2);
    assert("f2"@.len() == 2);
    assert("f3"@.len() == 2);
    assert("f4"@.len() == 2);
    assert("f5"@.len() == 2);
    assert("f6"@.len() == 2);
    assert("f7"@.len() == 2);
    assert("f8"@.len() == 2);
    assert("f9"@.len() == 2);
    assert("f10"@.len() == 3);
    assert("f10"@ != "enter"@);
    assert("f10"@ != "return"@);
    assert("f10"@ != "\\n"@);
    assert("f10"@[0] != "tab"@[0]);
    assert("f10"@ != "tab"@);
    assert("f10"@ != "\\t"@);
    assert("f10"@[0] != "esc"@[0]);
    assert("f10"@ != "esc"@);
    assert("f10"@ != "escape"@);
    assert("f10"@ != "space"@);
    assert("f10"@ != "backspace"@);
    assert("f10"@ != "bs"@);
    assert("f10"@ != "delete"@);
    assert("f10"@[0] != "del"@[0]);
    assert("f10"@ != "del"@);
    assert("f10"@[0] != "ins"@[0]);
    assert("f10"@ != "ins"@);
    assert("f10"@ != "insert"@);
    assert("f10"@ != "up"@);
    assert("f10"@ != "down"@);
    assert("f10"@ != "right"@);
    assert("f10"@ != "left"@);
    assert("f10"@ != "home"@);
    assert("f10"@[0] != "end"@[0]);
    assert("f10"@ != "end"@);
    assert("f10"@ != "pageup"@);
    assert("f10"@ != "pgup"@);
    assert("f10"@ != "pagedown"@);
    assert("f10"@ != "pgdn"@);
    assert("f10"@ != "f1"@);
    assert("f10"@ != "f2"@);
    assert("f10"@ != "f3"@);
    assert("f10"@ != "f4"@);
    assert("f10"@ != "f5"@);
    assert("f10"@ != "f6"@);
    assert("f10"@ != "f7"@);
    assert("f10"@ != "f8"@);
    assert("f10"@ != "f9"@);
}
proof fn lemma_key_f11()
    ensures
        named_key_bytes("f11"@) == Some(seq![0x1bu8, 0x5bu8, 0x32u8, 0x33u8, 0x7eu8]),
{
    reveal_strlit("enter");
    reveal_strlit("return");
    reveal_strlit("\\n");
    reveal_strlit("tab");
    reveal_strlit("\\t");
    reveal_strlit("esc");
    reveal_strlit("escape");
    reveal_strlit("space");
    reveal_strlit("backspace");
    reveal_strlit("bs");
    reveal_strlit("delete");
    reveal_strlit("del");
    reveal_strlit("ins");
    reveal_strlit("insert");
    reveal_strlit("up");
    reveal_strlit("down");
    reveal_strlit("right");
    reveal_strlit("left");
    reveal_strlit("home");
    reveal_strlit("end");
    reveal_strlit("pageup");
    reveal_strlit("pgup");
    reveal_strlit("pagedown");
    reveal_strlit("pgdn");
    reveal_strlit("f1");
    reveal_strlit("f2");
    reveal_strlit("f3");
    reveal_strlit("f4");
    reveal_strlit("f5");
    reveal_strlit("f6");
    reveal_strlit("f7");
    reveal_strlit("f8");
    reveal_strlit("f9");
    reveal_strlit("f10");
    reveal_strlit("f11");
    assert("enter"@.len() == 5);
    assert("return"@.len() == 6);
    assert("\\n"@.len() == 2);
    assert("tab"@.len() == 3);
    assert("\\t"@.len() == 2);
    assert("esc"@.len() == 3);
    assert("escape"@.len() == 6);
    assert("space"@.len() == 5);
    assert("backspace"@.len() == 9);
    assert("bs"@.len() == 2);
    assert("delete"@.len() == 6);
    assert("del"@.len() == 3);
    assert("ins"@.len() == 3);
    assert("insert"@.len() == 6);
    assert("up"@.len() == 2);
    assert("down"@.len() == 4);
    assert("right"@.len() == 5);
    assert("left"@.len() == 4);
    assert("home"@.len() == 4);
    assert("end"@.len() == 3);
    assert("pageup"@.len() == 6);
    assert("pgup"@.len() == 4);
    assert("pagedown"@.len() == 8);
    assert("pgdn"@.len() == 4);
    assert("f1"@.len() == 2);
    assert("f2"@.len() == 2);
    assert("f3"@.len() == 2);
    assert("f4"@.len() == 2);
    assert("f5"@.len() == 2);
    assert("f6"@.len() == 2);
    assert("f7"@.len() == 2);
    assert("f8"@.len() == 2);
    assert("f9"@.len() == 2);
    assert("f10"@.len() == 3);
    assert("f11"@.len() == 3);
    assert("f11"@ != "enter"@);
    assert("f11"@ != "return"@);
    assert("f11"@ != "\\n"@);
    assert("f11"@[0] != "tab"@[0]);
    assert("f11"@ != "tab"@);
    assert("f11"@ != "\\t"@);
    assert("f11"@[0] != "esc"@[0]);
    assert("f11"@ != "esc"@);
    assert("f11"@ != "escape"@);
    assert("f11"@ != "space"@);
    assert("f11"@ != "backspace"@);
    assert("f11"@ != "bs"@);
    assert("f11"@ != "delete"@);
    assert("f11"@[0] != "del"@[0]);
    assert("f11"@ != "del"@);
    assert("f11"@[0] != "ins"@[0]);
    assert("f11"@ != "ins"@);
    assert("f11"@ != "insert"@);
    assert("f11"@ != "up"@);
    assert("f11"@ != "down"@);
    assert("f11"@ != "right"@);
    assert("f11"@ != "left"@);
    assert("f11"@ != "home"@);
    assert("f11"@[0] != "end"@[0]);
    assert("f11"@ != "end"@);
    assert("f11"@ != "pageup"@);
    assert("f11"@ != "pgup"@);
    assert("f11"@ != "pagedown"@);
    assert("f11"@ != "pgdn"@);
    assert("f11"@ != "f1"@);
    assert("f11"@ != "f2"@);
    assert("f11"@ != "f3"@);
    assert("f11"@ != "f4"@);
    assert("f11"@ != "f5"@);
    assert("f11"@ != "f6"@);
    assert("f11"@ != "f7"@);
    assert("f11"@ != "f8"@);
    assert("f11"@ != "f9"@);
    assert("f11"@[2] != "f10"@[2]);
    assert("f11"@ != "f10"@);
}
proof fn lemma_key_f12()
    ensures
        named_key_bytes("f12"@) == Some(seq![0x1bu8, 0x5bu8, 0x32u8, 0x34u8, 0x7eu8]),
{
    reveal_strlit("enter");
    reveal_strlit("return");
    reveal_strlit("\\n");
    reveal_strlit("tab");
    reveal_strlit("\\t");
    reveal_strlit("esc");
    reveal_strlit("escape");
    reveal_strlit("space");
    reveal_strlit("backspace");
    reveal_strlit("bs");
    reveal_strlit("delete");
    reveal_strlit("del");
    reveal_strlit("ins");
    reveal_strlit("insert");
    reveal_strlit("up");
    reveal_strlit("down");
    reveal_strlit("right");
    reveal_strlit("left");
    reveal_strlit("home");
    reveal_strlit("end");
    reveal_strlit("pageup");
    reveal_strlit("pgup");
    reveal_strlit("pagedown");
    reveal_strlit("pgdn");
    reveal_strlit("f1");
    reveal_strlit("f2");
    reveal_strlit("f3");
    reveal_strlit("f4");
    reveal_strlit("f5");
    reveal_strlit("f6");
    reveal_strlit("f7");
    reveal_strlit("f8");
    reveal_strlit("f9");
    reveal_strlit("f10");
    reveal_strlit("f11");
    reveal_strlit("f12");
    assert("enter"@.len() == 5);
    assert("return"@.len() == 6);
    assert("\\n"@.len() == 2);
    assert("tab"@.len() == 3);
    assert("\\t"@.len() == 2);
    assert("esc"@.len() == 3);
    assert("escape"@.len() == 6);
    assert("space"@.len() == 5);
    assert("backspace"@.len() == 9);
    assert("bs"@.len() == 2);
    assert("delete"@.len() == 6);
    assert("del"@.len() == 3);
    assert("ins"@.len() == 3);
    assert("insert"@.len() == 6);
    assert("up"@.len() == 2);
    assert("down"@.len() == 4);
    assert("right"@.len() == 5);
    assert("left"@.len() == 4);
    assert("home"@.len() == 4);
    assert("end"@.len() == 3);
    assert("pageup"@.len() == 6);
    assert("pgup"@.len() == 4);
    assert("pagedown"@.len() == 8);
    assert("pgdn"@.len() == 4);
    assert("f1"@.len() == 2);
    assert("f2"@.len() == 2);
    assert("f3"@.len() == 2);
    assert("f4"@.len() == 2);
    assert("f5"@.len() == 2);
    assert("f6"@.len() == 2);
    assert("f7"@.len() == 2);
    assert("f8"@.len() == 2);
    assert("f9"@.len() == 2);
    assert("f10"@.len() == 3);
    assert("f11"@.len() == 3);
    assert("f12"@.len() == 3);
    assert("f12"@ != "enter"@);
    assert("f12"@ != "return"@);
    assert("f12"@ != "\\n"@);
    assert("f12"@[0] != "tab"@[0]);
    assert("f12"@ != "tab"@);
    assert("f12"@ != "\\t"@);
    assert("f12"@[0] != "esc"@[0]);
    assert("f12"@ != "esc"@);
    assert("f12"@ != "escape"@);
    assert("f12"@ != "space"@);
    assert("f12"@ != "backspace"@);
    assert("f12"@ != "bs"@);
    assert("f12"@ != "delete"@);
    assert("f12"@[0] != "del"@[0]);
    assert("f12"@ != "del"@);
    assert("f12"@[0] != "ins"@[0]);
    assert("f12"@ != "ins"@);
    assert("f12"@ != "insert"@);
    assert("f12"@ != "up"@);
    assert("f12"@ != "down"@);
    assert("f12"@ != "right"@);
    assert("f12"@ != "left"@);
    assert("f12"@ != "home"@);
    assert("f12"@[0] != "end"@[0]);
    assert("f12"@ != "end"@);
    assert("f12"@ != "pageup"@);
    assert("f12"@ != "pgup"@);
    assert("f12"@ != "pagedown"@);
    assert("f12"@ != "pgdn"@);
    assert("f12"@ != "f1"@);
    assert("f12"@ != "f2"@);
    assert("f12"@ != "f3"@);
    assert("f12"@ != "f4"@);
    assert("f12"@ != "f5"@);
    assert("f12"@ != "f6"@);
    assert("f12"@ != "f7"@);
    assert("f12"@ != "f8"@);
    assert("f12"@ != "f9"@);
    assert("f12"@[2] != "f10"@[2]);
    assert("f12"@ != "f10"@);
    assert("f12"@[2] != "f11"@[2]);
    assert("f12"@ != "f11"@);
}
/// The named keys send the bytes a terminal expects for them, whatever
/// their case or padding: Enter sends CR, Tab HT, Escape ESC, Space a space,
/// Backspace DEL; Delete, Insert, Page Up and Page Down send their
/// ESC [ n ~ sequences; the arrows send ESC [ A (up), ESC [ B (down),
/// ESC [ C (right), ESC [ D (left); Home and End ESC [ H and ESC [ F;
/// F1 to F4 send ESC O P to ESC O S and F5 to F12 their ESC [ n ~ forms.
/// In particular no two arrow keys send the same bytes.
pub proof fn lemma_named_keys(key: Seq<char>)
    ensures
        ascii_lower(trim(key)) == "enter"@ ==> keystroke_bytes_spec(key) == Some(seq![0x0du8]),
        ascii_lower(trim(key)) == "return"@ ==> keystroke_bytes_spec(key) == Some(seq![0x0du8]),
        ascii_lower(trim(key)) == "\\n"@ ==> keystroke_bytes_spec(key) == Some(seq![0x0du8]),
        ascii_lower(trim(key)) == "tab"@ ==> keystroke_bytes_spec(key) == Some(seq![0x09u8]),
        ascii_lower(trim(key)) == "\\t"@ ==> keystroke_bytes_spec(key) == Some(seq![0x09u8]),
        ascii_lower(trim(key)) == "esc"@ ==> keystroke_bytes_spec(key) == Some(seq![0x1bu8]),
        ascii_lower(trim(key)) == "escape"@ ==> keystroke_bytes_spec(key) == Some(seq![0x1bu8]),
        ascii_lower(trim(key)) == "space"@ ==> keystroke_bytes_spec(key) == Some(seq![0x20u8]),
        ascii_lower(trim(key)) == "backspace"@ ==> keystroke_bytes_spec(key) == Some(seq![0x7fu8]),
        ascii_lower(trim(key)) == "bs"@ ==> keystroke_bytes_spec(key) == Some(seq![0x7fu8]),
        ascii_lower(trim(key)) == "delete"@ ==> keystroke_bytes_spec(key) == Some(seq![0x1bu8, 0x5bu8, 0x33u8, 0x7eu8]),
        ascii_lower(trim(key)) == "del"@ ==> keystroke_bytes_spec(key) == Some(seq![0x1bu8, 0x5bu8, 0x33u8, 0x7eu8]),
        ascii_lower(trim(key)) == "ins"@ ==> keystroke_bytes_spec(key) == Some(seq![0x1bu8, 0x5bu8, 0x32u8, 0x7eu8]),
        ascii_lower(trim(key)) == "insert"@ ==> keystroke_bytes_spec(key) == Some(seq![0x1bu8, 0x5bu8, 0x32u8, 0x7eu8]),
        ascii_lower(trim(key)) == "up"@ ==> keystroke_bytes_spec(key) == Some(seq![0x1bu8, 0x5bu8, 0x41u8]),
        ascii_lower(trim(key)) == "down"@ ==> keystroke_bytes_spec(key) == Some(seq![0x1bu8, 0x5bu8, 0x42u8]),
        ascii_lower(trim(key)) == "right"@ ==> keystroke_bytes_spec(key) == Some(seq![0x1bu8, 0x5bu8, 0x43u8]),
        ascii_lower(trim(key)) == "left"@ ==> keystroke_bytes_spec(key) == Some(seq![0x1bu8, 0x5bu8, 0x44u8]),
        ascii_lower(trim(key)) == "home"@ ==> keystroke_bytes_spec(key) == Some(seq![0x1bu8, 0x5bu8, 0x48u8]),
        ascii_lower(trim(key)) == "end"@ ==> keystroke_bytes_spec(key) == Some(seq![0x1bu8, 0x5bu8, 0x46u8]),
        ascii_lower(trim(key)) == "pageup"@ ==> keystroke_bytes_spec(key) == Some(seq![0x1bu8, 0x5bu8, 0x35u8, 0x7eu8]),
        ascii_lower(trim(key)) == "pgup"@ ==> keystroke_bytes_spec(key) == Some(seq![0x1bu8, 0x5bu8, 0x35u8, 0x7eu8]),
        ascii_lower(trim(key)) == "pagedown"@ ==> keystroke_bytes_spec(key) == Some(seq![0x1bu8, 0x5bu8, 0x36u8, 0x7eu8]),
        ascii_lower(trim(key)) == "pgdn"@ ==> keystroke_bytes_spec(key) == Some(seq![0x1bu8, 0x5bu8, 0x36u8, 0x7eu8]),
        ascii_lower(trim(key)) == "f1"@ ==> keystroke_bytes_spec(key) == Some(seq![0x1bu8, 0x4fu8, 0x50u8]),
        ascii_lower(trim(key)) == "f2"@ ==> keystroke_bytes_spec(key) == Some(seq![0x1bu8, 0x4fu8, 0x51u8]),
        ascii_lower(trim(key)) == "f3"@ ==> keystroke_bytes_spec(key) == Some(seq![0x1bu8, 0x4fu8, 0x52u8]),
        ascii_lower(trim(key)) == "f4"@ ==> keystroke_bytes_spec(key) == Some(seq![0x1bu8, 0x4fu8, 0x53u8]),
        ascii_lower(trim(key)) == "f5"@ ==> keystroke_bytes_spec(key) == Some(seq![0x1bu8, 0x5bu8, 0x31u8, 0x35u8, 0x7eu8]),
        ascii_lower(trim(key)) == "f6"@ ==> keystroke_bytes_spec(key) == Some(seq![0x1bu8, 0x5bu8, 0x31u8, 0x37u8, 0x7eu8]),
        ascii_lower(trim(key)) == "f7"@ ==> keystroke_bytes_spec(key) == Some(seq![0x1bu8, 0x5bu8, 0x31u8, 0x38u8, 0x7eu8]),
        ascii_lower(trim(key)) == "f8"@ ==> keystroke_bytes_spec(key) == Some(seq![0x1bu8, 0x5bu8, 0x31u8, 0x39u8, 0x7eu8]),
        ascii_lower(trim(key)) == "f9"@ ==> keystroke_bytes_spec(key) == Some(seq![0x1bu8, 0x5bu8, 0x32u8, 0x30u8, 0x7eu8]),
        ascii_lower(trim(key)) == "f10"@ ==> keystroke_bytes_spec(key) == Some(seq![0x1bu8, 0x5bu8, 0x32u8, 0x31u8, 0x7eu8]),
        ascii_lower(trim(key)) == "f11"@ ==> keystroke_bytes_spec(key) == Some(seq![0x1bu8, 0x5bu8, 0x32u8, 0x33u8, 0x7eu8]),
        ascii_lower(trim(key)) == "f12"@ ==> keystroke_bytes_spec(key) == Some(seq![0x1bu8, 0x5bu8, 0x32u8, 0x34u8, 0x7eu8]),
{
    lemma_key_enter();
    lemma_key_return();
    lemma_key_newline_escape();
    lemma_key_tab();
    lemma_key_tab_escape();
    lemma_key_esc();
    lemma_key_escape();
    lemma_key_space();
    lemma_key_backspace();
    lemma_key_bs();
    lemma_key_delete();
    lemma_key_del();
    lemma_key_ins();
    lemma_key_insert();
    lemma_key_up();
    lemma_key_down();
    lemma_key_right();
    lemma_key_left();
    lemma_key_home();
    lemma_key_end();
    lemma_key_pageup();
    lemma_key_pgup();
    lemma_key_pagedown();
    lemma_key_pgdn();
    lemma_key_f1();
    lemma_key_f2();
    lemma_key_f3();
    lemma_key_f4();
    lemma_key_f5();
    lemma_key_f6();
    lemma_key_f7();
    lemma_key_f8();
    lemma_key_f9();
    lemma_key_f10();
    lemma_key_f11();
    lemma_key_f12();
}

/// `ctrl-<letter>` sends the letter's control code: `ctrl-a` is 0x01,
/// `ctrl-b` 0x02, and so on to `ctrl-z`, 0x1a.
pub proof fn lemma_ctrl_letter(c: char)
    requires
        'a' <= c <= 'z',
    ensures
        keystroke_bytes_spec("ctrl-"@.push(c)) == Some(seq![((c as u32) - 0x60) as u8]),
{
    reveal_strlit("ctrl-");
    reveal_strlit("c-");
    let k = "ctrl-"@.push(c);
    assert(k.len() == 6);
    assert(k[0] == 'c');
    lemma_trim_fixed(k);
    assert(trim(k) == k);
    assert(ascii_lower(k) =~= k);
    reveal_strlit("enter");
    assert("enter"@.len() == 5);
    assert(k != "enter"@);
    reveal_strlit("return");
    assert("return"@.len() == 6);
    assert("return"@[0] != k[0]);
    assert(k != "return"@);
    reveal_strlit("\\n");
    assert("\\n"@.len() == 2);
    assert(k != "\\n"@);
    reveal_strlit("tab");
    assert("tab"@.len() == 3);
    assert(k != "tab"@);
    reveal_strlit("\\t");
    assert("\\t"@.len() == 2);
    assert(k != "\\t"@);
    reveal_strlit("esc");
    assert("esc"@.len() == 3);
    assert(k != "esc"@);
    reveal_strlit("escape");
    assert("escape"@.len() == 6);
    assert("escape"@[0] != k[0]);
    assert(k != "escape"@);
    reveal_strlit("space");
    assert("space"@.len() == 5);
    assert(k != "space"@);
    reveal_strlit("backspace");
    assert("backspace"@.len() == 9);
    assert(k != "backspace"@);
    reveal_strlit("bs");
    assert("bs"@.len() == 2);
    assert(k != "bs"@);
    reveal_strlit("delete");
    assert("delete"@.len() == 6);
    assert("delete"@[0] != k[0]);
    assert(k != "delete"@);
    reveal_strlit("del");
    assert("del"@.len() == 3);
    assert(k != "del"@);
    reveal_strlit("ins");
    assert("ins"@.len() == 3);
    assert(k != "ins"@);
    reveal_strlit("insert");
    assert("insert"@.len() == 6);
    assert("insert"@[0] != k[0]);
    assert(k != "insert"@);
    reveal_strlit("up");
    assert("up"@.len() == 2);
    assert(k != "up"@);
    reveal_strlit("down");
    assert("down"@.len() == 4);
    assert(k != "down"@);
    reveal_strlit("right");
    assert("right"@.len() == 5);
    assert(k != "right"@);
    reveal_strlit("left");
    assert("left"@.len() == 4);
    assert(k != "left"@);
    reveal_strlit("home");
    assert("home"@.len() == 4);
    assert(k != "home"@);
    reveal_strlit("end");
    assert("end"@.len() == 3);
    assert(k != "end"@);
    reveal_strlit("pageup");
    assert("pageup"@.len() == 6);
    assert("pageup"@[0] != k[0]);
    assert(k != "pageup"@);
    reveal_strlit("pgup");
    assert("pgup"@.len() == 4);
    assert(k != "pgup"@);
    reveal_strlit("pagedown");
    assert("pagedown"@.len() == 8);
    assert(k != "pagedown"@);
    reveal_strlit("pgdn");
    assert("pgdn"@.len() == 4);
    assert(k != "pgdn"@);
    reveal_strlit("f1");
    assert("f1"@.len() == 2);
    assert(k != "f1"@);
    reveal_strlit("f2");
    assert("f2"@.len() == 2);
    assert(k != "f2"@);
    reveal_strlit("f3");
    assert("f3"@.len() == 2);
    assert(k != "f3"@);
    reveal_strlit("f4");
    assert("f4"@.len() == 2);
    assert(k != "f4"@);
    reveal_strlit("f5");
    assert("f5"@.len() == 2);
    assert(k != "f5"@);
    reveal_strlit("f6");
    assert("f6"@.len() == 2);
    assert(k != "f6"@);
    reveal_strlit("f7");
    assert("f7"@.len() == 2);
    assert(k != "f7"@);
    reveal_strlit("f8");
    assert("f8"@.len() == 2);
    assert(k != "f8"@);
    reveal_strlit("f9");
    assert("f9"@.len() == 2);
    assert(k != "f9"@);
    reveal_strlit("f10");
    assert("f10"@.len() == 3);
    assert(k != "f10"@);
    reveal_strlit("f11");
    assert("f11"@.len() == 3);
    assert(k != "f11"@);
    reveal_strlit("f12");
    assert("f12"@.len() == 3);
    assert(k != "f12"@);
    assert(named_key_bytes(k) is None);
    assert(k.take(5) =~= "ctrl-"@);
    assert(k.skip(5) =~= seq![c]);
}

/// The punctuation chords send their control codes: `ctrl-@` NUL,
/// `ctrl-[` ESC, `ctrl-\` 0x1c, `ctrl-]` 0x1d, `ctrl-^` 0x1e, `ctrl-_` 0x1f
/// and `ctrl-?` DEL.
pub proof fn lemma_ctrl_symbols(c: char)
    requires
        c == '@' || c == '[' || c == '\\' || c == ']' || c == '^' || c == '_' || c == '?',
    ensures
        c == '@' ==> keystroke_bytes_spec("ctrl-"@.push(c)) == Some(seq![0x00u8]),
        c == '[' ==> keystroke_bytes_spec("ctrl-"@.push(c)) == Some(seq![0x1bu8]),
        c == '\\' ==> keystroke_bytes_spec("ctrl-"@.push(c)) == Some(seq![0x1cu8]),
        c == ']' ==> keystroke_bytes_spec("ctrl-"@.push(c)) == Some(seq![0x1du8]),
        c == '^' ==> keystroke_bytes_spec("ctrl-"@.push(c)) == Some(seq![0x1eu8]),
        c == '_' ==> keystroke_bytes_spec("ctrl-"@.push(c)) == Some(seq![0x1fu8]),
        c == '?' ==> keystroke_bytes_spec("ctrl-"@.push(c)) == Some(seq![0x7fu8]),
{
    reveal_strlit("ctrl-");
    reveal_strlit("c-");
    let k = "ctrl-"@.push(c);
    assert(k.len() == 6);
    assert(k[0] == 'c');
    lemma_trim_fixed(k);
    assert(trim(k) == k);
    assert(ascii_lower(k) =~= k);
    reveal_strlit("enter");
    assert("enter"@.len() == 5);
    assert(k != "enter"@);
    reveal_strlit("return");
    assert("return"@.len() == 6);
    assert("return"@[0] != k[0]);
    assert(k != "return"@);
    reveal_strlit("\\n");
    assert("\\n"@.len() == 2);
    assert(k != "\\n"@);
    reveal_strlit("tab");
    assert("tab"@.len() == 3);
    assert(k != "tab"@);
    reveal_strlit("\\t");
    assert("\\t"@.len() == 2);
    assert(k != "\\t"@);
    reveal_strlit("esc");
    assert("esc"@.len() == 3);
    assert(k != "esc"@);
    reveal_strlit("escape");
    assert("escape"@.len() == 6);
    assert("escape"@[0] != k[0]);
    assert(k != "escape"@);
    reveal_strlit("space");
    assert("space"@.len() == 5);
    assert(k != "space"@);
    reveal_strlit("backspace");
    assert("backspace"@.len() == 9);
    assert(k != "backspace"@);
    reveal_strlit("bs");
    assert("bs"@.len() == 2);
    assert(k != "bs"@);
    reveal_strlit("delete");
    assert("delete"@.len() == 6);
    assert("delete"@[0] != k[0]);
    assert(k != "delete"@);
    reveal_strlit("del");
    assert("del"@.len() == 3);
    assert(k != "del"@);
    reveal_strlit("ins");
    assert("ins"@.len() == 3);
    assert(k != "ins"@);
    reveal_strlit("insert");
    assert("insert"@.len() == 6);
    assert("insert"@[0] != k[0]);
    assert(k != "insert"@);
    reveal_strlit("up");
    assert("up"@.len() == 2);
    assert(k != "up"@);
    reveal_strlit("down");
    assert("down"@.len() == 4);
    assert(k != "down"@);
    reveal_strlit("right");
    assert("right"@.len() == 5);
    assert(k != "right"@);
    reveal_strlit("left");
    assert("left"@.len() == 4);
    assert(k != "left"@);
    reveal_strlit("home");
    assert("home"@.len() == 4);
    assert(k != "home"@);
    reveal_strlit("end");
    assert("end"@.len() == 3);
    assert(k != "end"@);
    reveal_strlit("pageup");
    assert("pageup"@.len() == 6);
    assert("pageup"@[0] != k[0]);
    assert(k != "pageup"@);
    reveal_strlit("pgup");
    assert("pgup"@.len() == 4);
    assert(k != "pgup"@);
    reveal_strlit("pagedown");
    assert("pagedown"@.len() == 8);
    assert(k != "pagedown"@);
    reveal_strlit("pgdn");
    assert("pgdn"@.len() == 4);
    assert(k != "pgdn"@);
    reveal_strlit("f1");
    assert("f1"@.len() == 2);
    assert(k != "f1"@);
    reveal_strlit("f2");
    assert("f2"@.len() == 2);
    assert(k != "f2"@);
    reveal_strlit("f3");
    assert("f3"@.len() == 2);
    assert(k != "f3"@);
    reveal_strlit("f4");
    assert("f4"@.len() == 2);
    assert(k != "f4"@);
    reveal_strlit("f5");
    assert("f5"@.len() == 2);
    assert(k != "f5"@);
    reveal_strlit("f6");
    assert("f6"@.len() == 2);
    assert(k != "f6"@);
    reveal_strlit("f7");
    assert("f7"@.len() == 2);
    assert(k != "f7"@);
    reveal_strlit("f8");
    assert("f8"@.len() == 2);
    assert(k != "f8"@);
    reveal_strlit("f9");
    assert("f9"@.len() == 2);
    assert(k != "f9"@);
    reveal_strlit("f10");
    assert("f10"@.len() == 3);
    assert(k != "f10"@);
    reveal_strlit("f11");
    assert("f11"@.len() == 3);
    assert(k != "f11"@);
    reveal_strlit("f12");
    assert("f12"@.len() == 3);
    assert(k != "f12"@);
    assert(named_key_bytes(k) is None);
    assert(k.take(5) =~= "ctrl-"@);
    assert(k.skip(5) =~= seq![c]);
}

/// The short chord form `c-<letter>` sends the same control code as
/// `ctrl-<letter>`.
pub proof fn lemma_short_ctrl_letter(c: char)
    requires
        'a' <= c <= 'z',
    ensures
        keystroke_bytes_spec("c-"@.push(c)) == Some(seq![((c as u32) - 0x60) as u8]),
        keystroke_bytes_spec("c-"@.push(c)) == keystroke_bytes_spec("ctrl-"@.push(c)),
{
    lemma_ctrl_letter(c);
    reveal_strlit("ctrl-");
    reveal_strlit("c-");
    let k = "c-"@.push(c);
    assert(k.len() == 3);
    assert(k[0] == 'c');
    lemma_trim_fixed(k);
    assert(trim(k) == k);
    assert(ascii_lower(k) =~= k);
    reveal_strlit("enter");
    assert("enter"@.len() == 5);
    assert(k != "enter"@);
    reveal_strlit("return");
    assert("return"@.len() == 6);
    assert(k != "return"@);
    reveal_strlit("\\n");
    assert("\\n"@.len() == 2);
    assert(k != "\\n"@);
    reveal_strlit("tab");
    assert("tab"@.len() == 3);
    assert("tab"@[0] != k[0]);
    assert(k != "tab"@);
    reveal_strlit("\\t");
    assert("\\t"@.len() == 2);
    assert(k != "\\t"@);
    reveal_strlit("esc");
    assert("esc"@.len() == 3);
    assert("esc"@[0] != k[0]);
    assert(k != "esc"@);
    reveal_strlit("escape");
    assert("escape"@.len() == 6);
    assert(k != "escape"@);
    reveal_strlit("space");
    assert("space"@.len() == 5);
    assert(k != "space"@);
    reveal_strlit("backspace");
    assert("backspace"@.len() == 9);
    assert(k != "backspace"@);
    reveal_strlit("bs");
    assert("bs"@.len() == 2);
    assert(k != "bs"@);
    reveal_strlit("delete");
    assert("delete"@.len() == 6);
    assert(k != "delete"@);
    reveal_strlit("del");
    assert("del"@.len() == 3);
    assert("del"@[0] != k[0]);
    assert(k != "del"@);
    reveal_strlit("ins");
    assert("ins"@.len() == 3);
    assert("ins"@[0] != k[0]);
    assert(k != "ins"@);
    reveal_strlit("insert");
    assert("insert"@.len() == 6);
    assert(k != "insert"@);
    reveal_strlit("up");
    assert("up"@.len() == 2);
    assert(k != "up"@);
    reveal_strlit("down");
    assert("down"@.len() == 4);
    assert(k != "down"@);
    reveal_strlit("right");
    assert("right"@.len() == 5);
    assert(k != "right"@);
    reveal_strlit("left");
    assert("left"@.len() == 4);
    assert(k != "left"@);
    reveal_strlit("home");
    assert("home"@.len() == 4);
    assert(k != "home"@);
    reveal_strlit("end");
    assert("end"@.len() == 3);
    assert("end"@[0] != k[0]);
    assert(k != "end"@);
    reveal_strlit("pageup");
    assert("pageup"@.len() == 6);
    assert(k != "pageup"@);
    reveal_strlit("pgup");
    assert("pgup"@.len() == 4);
    assert(k != "pgup"@);
    reveal_strlit("pagedown");
    assert("pagedown"@.len() == 8);
    assert(k != "pagedown"@);
    reveal_strlit("pgdn");
    assert("pgdn"@.len() == 4);
    assert(k != "pgdn"@);
    reveal_strlit("f1");
    assert("f1"@.len() == 2);
    assert(k != "f1"@);
    reveal_strlit("f2");
    assert("f2"@.len() == 2);
    assert(k != "f2"@);
    reveal_strlit("f3");
    assert("f3"@.len() == 2);
    assert(k != "f3"@);
    reveal_strlit("f4");
    assert("f4"@.len() == 2);
    assert(k != "f4"@);
    reveal_strlit("f5");
    assert("f5"@.len() == 2);
    assert(k != "f5"@);
    reveal_strlit("f6");
    assert("f6"@.len() == 2);
    assert(k != "f6"@);
    reveal_strlit("f7");
    assert("f7"@.len() == 2);
    assert(k != "f7"@);
    reveal_strlit("f8");
    assert("f8"@.len() == 2);
    assert(k != "f8"@);
    reveal_strlit("f9");
    assert("f9"@.len() == 2);
    assert(k != "f9"@);
    reveal_strlit("f10");
    assert("f10"@.len() == 3);
    assert("f10"@[0] != k[0]);
    assert(k != "f10"@);
    reveal_strlit("f11");
    assert("f11"@.len() == 3);
    assert("f11"@[0] != k[0]);
    assert(k != "f11"@);
    reveal_strlit("f12");
    assert("f12"@.len() == 3);
    assert("f12"@[0] != k[0]);
    assert(k != "f12"@);
    assert(named_key_bytes(k) is None);
    assert(!starts_with(k, "ctrl-"@));
    assert(k.take(2) =~= "c-"@);
    assert(k.skip(2) =~= seq![c]);
}

} // verus!
