//! Byte-budgeted truncation of pane text. Limits are counted in UTF-8 bytes;
//! truncation keeps the tail of the text and never splits a character.

use vstd::prelude::*;
use crate::text::{char_width, chars_of, string_from, utf8_len, utf8_width};
use crate::wire::{BlockEntry, PaneScreenSnapshot, PaneSnapshot};

verus! {

/// How many characters, counted from the end of `s`, fit in `budget` bytes.
pub open spec fn tail_fit(s: Seq<char>, budget: nat) -> nat
    decreases s.len(),
{
    if s.len() == 0 || utf8_width(s.last()) > budget {
        0
    } else {
        1 + tail_fit(s.drop_last(), (budget - utf8_width(s.last())) as nat)
    }
}

/// What `truncate_text` returns: the text unchanged (and `false`) when the
/// limit is 0 or the text fits in it; otherwise the longest tail of the text
/// that fits in `max` bytes, and `true`.
pub open spec fn truncate_spec(s: Seq<char>, max: nat) -> (Seq<char>, bool) {
    if max == 0 || utf8_len(s) <= max {
        (s, false)
    } else {
        (s.skip(s.len() - tail_fit(s, max)), true)
    }
}

/// The greedy tail count reaches the whole text exactly when the text fits.
pub proof fn lemma_tail_fit_all(s: Seq<char>, budget: nat)
    ensures
        tail_fit(s, budget) <= s.len(),
        tail_fit(s, budget) == s.len() <==> utf8_len(s) <= budget,
    decreases s.len(),
{
    if s.len() > 0 && utf8_width(s.last()) <= budget {
        lemma_tail_fit_all(s.drop_last(), (budget - utf8_width(s.last())) as nat);
    }
}

/// The kept tail fits in the budget, and one more character would not.
pub proof fn lemma_tail_fit_bytes(s: Seq<char>, budget: nat)
    ensures
        tail_fit(s, budget) <= s.len(),
        utf8_len(s.skip(s.len() - tail_fit(s, budget))) <= budget,
        tail_fit(s, budget) < s.len() ==> utf8_len(s.skip(s.len() - tail_fit(s, budget) - 1))
            > budget,
    decreases s.len(),
{
    lemma_tail_fit_all(s, budget);
    let n = tail_fit(s, budget);
    if s.len() == 0 {
        assert(s.skip(0).len() == 0);
    } else if utf8_width(s.last()) > budget {
        assert(s.skip(s.len() as int).len() == 0);
        assert(s.skip(s.len() - 1).drop_last().len() == 0);
        assert(s.skip(s.len() - 1).last() == s.last());
    } else {
        let d = s.drop_last();
        let b2 = (budget - utf8_width(s.last())) as nat;
        lemma_tail_fit_bytes(d, b2);
        let m = tail_fit(d, b2);
        assert(n == m + 1);
        let k = d.len() - m;
        assert(s.skip(s.len() - n) =~= d.skip(k).push(s.last()));
        assert(s.skip(s.len() - n).drop_last() =~= d.skip(k));
        if n < s.len() {
            assert(s.skip(s.len() - n - 1) =~= d.skip(k - 1).push(s.last()));
            assert(s.skip(s.len() - n - 1).drop_last() =~= d.skip(k - 1));
        }
    }
}

/// Truncation keeps a tail of the text; with a nonzero limit that tail fits
/// in the limit, and it is the longest tail that does.
pub proof fn lemma_truncate_keeps_longest_fitting_tail(s: Seq<char>, max: nat)
    ensures
        ({
            let (t, cut) = truncate_spec(s, max);
            &&& t.len() <= s.len()
            &&& t == s.skip(s.len() - t.len())
            &&& cut <==> t.len() < s.len()
            &&& max > 0 ==> utf8_len(t) <= max
            &&& cut ==> utf8_len(s.skip(s.len() - t.len() - 1)) > max
        }),
{
    lemma_tail_fit_all(s, max);
    lemma_tail_fit_bytes(s, max);
    assert(s.skip(0) =~= s);
    let (t, cut) = truncate_spec(s, max);
    if cut {
        assert(t.len() == tail_fit(s, max));
    }
}

/// Shortens `text` to its last `max_bytes` bytes, moving the cut forward to
/// the next character boundary; a limit of 0 means no limit. The flag tells
/// whether anything was cut.
pub fn truncate_text(text: String, max_bytes: usize) -> (r: (String, bool))
    ensures
        (r.0@, r.1) == truncate_spec(text@, max_bytes as nat),
{
    if max_bytes == 0 {
        return (text, false);
    }
    let v = chars_of(text.as_str());
    let mut i = v.len();
    let mut budget = max_bytes;
    proof {
        assert(v@.take(v@.len() as int) =~= v@);
    }
    while i > 0 && char_width(v[i - 1]) <= budget
        invariant
            i <= v@.len(),
            budget <= max_bytes,
            tail_fit(v@, max_bytes as nat) == (v@.len() - i) + tail_fit(
                v@.take(i as int),
                budget as nat,
            ),
        decreases i,
    {
        let w = char_width(v[i - 1]);
        proof {
            let t = v@.take(i as int);
            assert(t.drop_last() =~= v@.take(i - 1));
            assert(t.last() == v@[i - 1]);
        }
        budget = budget - w;
        i = i - 1;
    }
    proof {
        if i > 0 {
            assert(v@.take(i as int).last() == v@[i - 1]);
        }
        assert(tail_fit(v@.take(i as int), budget as nat) == 0);
        lemma_tail_fit_all(v@, max_bytes as nat);
    }
    if i == 0 {
        (text, false)
    } else {
        (string_from(&v, i, v.len()), true)
    }
}

/// `b2` is `b` with its output truncated to `max` bytes.
pub open spec fn block_truncated(b: BlockEntry, b2: BlockEntry, max: nat) -> bool {
    &&& b2.id == b.id
    &&& b2.pane_id == b.pane_id
    &&& b2.command == b.command
    &&& b2.output@ == truncate_spec(b.output@, max).0
    &&& b2.output_truncated == truncate_spec(b.output@, max).1
    &&& b2.exit_code == b.exit_code
    &&& b2.pwd == b.pwd
    &&& b2.started_at == b.started_at
    &&& b2.completed_at == b.completed_at
}

/// Truncates one block's output to `max_bytes`.
pub fn truncate_block(b: BlockEntry, max_bytes: usize) -> (r: BlockEntry)
    ensures
        block_truncated(b, r, max_bytes as nat),
{
    let BlockEntry {
        id,
        pane_id,
        command,
        output,
        output_truncated: _,
        exit_code,
        pwd,
        started_at,
        completed_at,
    } = b;
    let (output, output_truncated) = truncate_text(output, max_bytes);
    BlockEntry {
        id,
        pane_id,
        command,
        output,
        output_truncated,
        exit_code,
        pwd,
        started_at,
        completed_at,
    }
}

/// `b` is snapshot `a` with its screen text and every block output
/// truncated to `max` bytes; everything else is kept.
pub open spec fn snapshot_truncated(a: PaneSnapshot, b: PaneSnapshot, max: nat) -> bool {
    &&& b.schema_version == a.schema_version
    &&& b.captured_at == a.captured_at
    &&& b.pane == a.pane
    &&& (b.screen is Some <==> a.screen is Some)
    &&& a.screen is Some ==> ({
        let x = a.screen.unwrap();
        let y = b.screen.unwrap();
        &&& y.alt_screen == x.alt_screen
        &&& y.text@ == truncate_spec(x.text@, max).0
        &&& y.text_truncated == truncate_spec(x.text@, max).1
    })
    &&& b.blocks@.len() == a.blocks@.len()
    &&& forall|i: int|
        0 <= i < b.blocks@.len() ==> block_truncated(#[trigger] a.blocks@[i], b.blocks@[i], max)
}

/// Truncates the screen text and every block output of a snapshot to
/// `max_output_bytes` (0 = no limit); everything else is kept.
pub fn truncate_snapshot(snapshot: PaneSnapshot, max_output_bytes: usize) -> (r: PaneSnapshot)
    ensures
        snapshot_truncated(snapshot, r, max_output_bytes as nat),
{
    let PaneSnapshot { schema_version, captured_at, pane, screen, blocks } = snapshot;
    let screen = match screen {
        Some(sc) => {
            let PaneScreenSnapshot { alt_screen, text, text_truncated: _ } = sc;
            let (text, text_truncated) = truncate_text(text, max_output_bytes);
            Some(PaneScreenSnapshot { alt_screen, text, text_truncated })
        },
        None => None,
    };
    let ghost old_blocks = blocks@;
    let mut out: Vec<BlockEntry> = Vec::new();
    for b in it: blocks.into_iter()
        invariant
            it.seq() == old_blocks,
            out@.len() == it.index(),
            forall|j: int|
                0 <= j < out@.len() ==> block_truncated(
                    #[trigger] old_blocks[j],
                    out@[j],
                    max_output_bytes as nat,
                ),
    {
        let t = truncate_block(b, max_output_bytes);
        out.push(t);
    }
    PaneSnapshot { schema_version, captured_at, pane, screen, blocks: out }
}

} // verus!
