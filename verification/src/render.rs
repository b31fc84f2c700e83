//! How the CLI shows a response: the text it prints, the JSON document it
//! prints instead (the caller serialises it), and the error it exits with.

use vstd::prelude::*;
use crate::text::{
    chars_of, dec, dec_int, find_char, find_char_from, push_char, push_chars, push_decimal,
    push_decimal_i32, push_str, skip_ws_backward, trim_end, opt_view, parse_u64_spec,
    lemma_parse_u64_of_dec, lemma_dec_digits,
};
use crate::wire::{BlockEntry, PaneSnapshot, PaneSummary, Response, TabSummary, TextMatch, TextMatchSource};

verus! {

/// Which JSON document the caller prints for a response.
#[derive(Debug, Clone, Copy, PartialEq, Eq, Structural)]
pub enum JsonOutput {
    /// No JSON; the text is printed instead.
    Nothing,
    /// The pane snapshot, pretty-printed.
    Snapshot,
    /// `{matched: true, elapsed_ms, match, snapshot}`.
    Matched,
    /// `{matched: false, pane, timeout_ms, elapsed_ms, snapshot}`.
    TimedOut,
}

/// What the CLI does with a response: print `text` (or the JSON document
/// `json` names), then fail with `error` if there is one.
#[derive(Debug)]
pub struct RenderedResponse {
    pub text: String,
    pub json: JsonOutput,
    pub error: Option<String>,
}

/// `s` followed by spaces up to `w` characters (`{:<w}`).
pub open spec fn pad(s: Seq<char>, w: nat) -> Seq<char> {
    if s.len() < w {
        s + Seq::new((w - s.len()) as nat, |i: int| ' ')
    } else {
        s
    }
}

/// `{}` of a `bool`.
pub open spec fn bool_text(b: bool) -> Seq<char> {
    if b {
        "true"@
    } else {
        "false"@
    }
}

/// Milliseconds as whole seconds (`5s`) when they are, else as `1500ms`.
pub open spec fn duration_text(ms: u64) -> Seq<char> {
    if ms % 1000 == 0 {
        dec((ms / 1000) as nat) + "s"@
    } else {
        dec(ms as nat) + "ms"@
    }
}

/// Appends `s` padded with spaces to `w` characters.
pub fn push_padded(out: &mut String, s: &str, w: usize)
    ensures
        final(out)@ == old(out)@ + pad(s@, w as nat),
{
    let v = chars_of(s);
    push_str(out, s);
    let ghost mid = out@;
    let mut n = v.len();
    while n < w
        invariant
            v@ == s@,
            v@.len() <= n <= w || (n == v@.len() && n >= w),
            out@ == mid + Seq::new((n - v@.len()) as nat, |i: int| ' '),
        decreases w - n,
    {
        push_char(out, ' ');
        proof {
            assert(out@ =~= mid + Seq::new((n + 1 - v@.len()) as nat, |i: int| ' '));
        }
        n += 1;
    }
    proof {
        if v@.len() >= w {
            assert(out@ =~= mid);
        }
    }
}

fn push_padded_u64(out: &mut String, n: u64, w: usize)
    ensures
        final(out)@ == old(out)@ + pad(dec(n as nat), w as nat),
{
    let mut s = String::new();
    push_decimal(&mut s, n);
    proof {
        assert(s@ =~= dec(n as nat));
    }
    push_padded(out, s.as_str(), w);
}

/// Formats a duration given in milliseconds.
pub fn format_duration_ms(ms: u64) -> (r: String)
    ensures
        r@ == duration_text(ms),
{
    let mut r = String::new();
    if ms % 1000 == 0 {
        push_decimal(&mut r, ms / 1000);
        push_str(&mut r, "s");
    } else {
        push_decimal(&mut r, ms);
        push_str(&mut r, "ms");
    }
    proof {
        assert(r@ =~= duration_text(ms));
    }
    r
}

/// Pane ids joined with commas.
pub open spec fn join_ids(ids: Seq<u64>) -> Seq<char>
    decreases ids.len(),
{
    if ids.len() == 0 {
        seq![]
    } else if ids.len() == 1 {
        dec(ids[0] as nat)
    } else {
        join_ids(ids.drop_last()) + ","@ + dec(ids.last() as nat)
    }
}

/// One row of the tab table.
pub open spec fn tab_row(t: TabSummary) -> Seq<char> {
    let panes = join_ids(t.pane_ids@);
    pad(dec(t.id as nat), 8) + " "@ + pad(dec(t.index as nat), 6) + " "@ + pad(
        if t.active {
            "yes"@
        } else {
            ""@
        },
        10,
    ) + " "@ + (if panes.len() == 0 {
        "-"@
    } else {
        panes
    }) + "\n"@
}

/// Rows for a sequence of tabs.
pub open spec fn tab_rows(ts: Seq<TabSummary>) -> Seq<char>
    decreases ts.len(),
{
    if ts.len() == 0 {
        seq![]
    } else {
        tab_rows(ts.drop_last()) + tab_row(ts.last())
    }
}

/// The tab table: `(no tabs)` or a header and one row per tab.
pub open spec fn tabs_text(ts: Seq<TabSummary>) -> Seq<char> {
    if ts.len() == 0 {
        "(no tabs)\n"@
    } else {
        pad("TAB"@, 8) + " "@ + pad("INDEX"@, 6) + " "@ + pad("ACTIVE"@, 10) + " "@ + "PANES\n"@
            + tab_rows(ts)
    }
}

fn push_join_ids(out: &mut String, ids: &Vec<u64>)
    ensures
        final(out)@ == old(out)@ + join_ids(ids@),
{
    let ghost start = out@;
    let mut i: usize = 0;
    while i < ids.len()
        invariant
            i <= ids@.len(),
            out@ == start + join_ids(ids@.take(i as int)),
        decreases ids.len() - i,
    {
        proof {
            assert(ids@.take(i + 1).drop_last() =~= ids@.take(i as int));
        }
        if i > 0 {
            push_str(out, ",");
        }
        push_decimal(out, ids[i]);
        proof {
            if i == 0 {
                assert(out@ =~= start + join_ids(ids@.take(1)));
            } else {
                assert(out@ =~= start + join_ids(ids@.take(i + 1)));
            }
        }
        i += 1;
    }
    proof {
        assert(ids@.take(ids@.len() as int) =~= ids@);
    }
}

fn push_tab_row(out: &mut String, t: &TabSummary)
    ensures
        final(out)@ == old(out)@ + tab_row(*t),
{
    let ghost start = out@;
    push_padded_u64(out, t.id, 8);
    push_str(out, " ");
    push_padded_u64(out, t.index as u64, 6);
    push_str(out, " ");
    push_padded(out, if t.active { "yes" } else { "" }, 10);
    push_str(out, " ");
    let mut panes = String::new();
    push_join_ids(&mut panes, &t.pane_ids);
    let pv = chars_of(panes.as_str());
    if pv.len() == 0 {
        push_str(out, "-");
    } else {
        push_str(out, panes.as_str());
    }
    push_str(out, "\n");
    proof {
        assert(panes@ =~= join_ids(t.pane_ids@));
        assert(out@ =~= start + tab_row(*t));
    }
}

/// Appends the tab table.
pub fn push_tabs(out: &mut String, tabs: &Vec<TabSummary>)
    ensures
        final(out)@ == old(out)@ + tabs_text(tabs@),
{
    let ghost start = out@;
    if tabs.len() == 0 {
        push_str(out, "(no tabs)\n");
        return;
    }
    push_padded(out, "TAB", 8);
    push_str(out, " ");
    push_padded(out, "INDEX", 6);
    push_str(out, " ");
    push_padded(out, "ACTIVE", 10);
    push_str(out, " ");
    push_str(out, "PANES\n");
    let ghost head = out@;
    let mut i: usize = 0;
    while i < tabs.len()
        invariant
            i <= tabs@.len(),
            out@ == head + tab_rows(tabs@.take(i as int)),
        decreases tabs.len() - i,
    {
        push_tab_row(out, &tabs[i]);
        proof {
            assert(tabs@.take(i + 1).drop_last() =~= tabs@.take(i as int));
            assert(out@ =~= head + tab_rows(tabs@.take(i + 1)));
        }
        i += 1;
    }
    proof {
        assert(tabs@.take(tabs@.len() as int) =~= tabs@);
        assert(out@ =~= start + tabs_text(tabs@));
    }
}

/// The character view of an optional string, or `d` when absent.
pub open spec fn or_default(o: Option<String>, d: Seq<char>) -> Seq<char> {
    match o {
        Some(s) => s@,
        None => d,
    }
}

/// One row of the pane table.
pub open spec fn pane_row(p: PaneSummary) -> Seq<char> {
    pad(dec(p.id as nat), 10) + " "@ + pad(dec(p.tab_id as nat), 8) + " "@ + pad(
        dec(p.tab_index as nat),
        6,
    ) + " "@ + pad(
        if p.focused {
            "yes"@
        } else {
            ""@
        },
        8,
    ) + " "@ + or_default(p.cwd, "-"@) + "\n"@
}

/// Rows for a sequence of panes.
pub open spec fn pane_rows(ps: Seq<PaneSummary>) -> Seq<char>
    decreases ps.len(),
{
    if ps.len() == 0 {
        seq![]
    } else {
        pane_rows(ps.drop_last()) + pane_row(ps.last())
    }
}

/// The pane table: `(no panes)` or a header and one row per pane.
pub open spec fn panes_text(ps: Seq<PaneSummary>) -> Seq<char> {
    if ps.len() == 0 {
        "(no panes)\n"@
    } else {
        pane_header() + pane_rows(ps)
    }
}

fn push_pane_row(out: &mut String, p: &PaneSummary)
    ensures
        final(out)@ == old(out)@ + pane_row(*p),
{
    let ghost start = out@;
    push_padded_u64(out, p.id, 10);
    push_str(out, " ");
    push_padded_u64(out, p.tab_id, 8);
    push_str(out, " ");
    push_padded_u64(out, p.tab_index as u64, 6);
    push_str(out, " ");
    push_padded(out, if p.focused { "yes" } else { "" }, 8);
    push_str(out, " ");
    match &p.cwd {
        Some(c) => push_str(out, c.as_str()),
        None => push_str(out, "-"),
    }
    push_str(out, "\n");
    proof {
        assert(out@ =~= start + pane_row(*p));
    }
}

/// Header of the pane table.
pub open spec fn pane_header() -> Seq<char> {
    pad("PANE"@, 10) + " "@ + pad("TAB"@, 8) + " "@ + pad("INDEX"@, 6) + " "@ + pad("FOCUSED"@, 8)
        + " "@ + "CWD\n"@
}

fn push_pane_header(out: &mut String)
    ensures
        final(out)@ == old(out)@ + pane_header(),
{
    let ghost start = out@;
    push_padded(out, "PANE", 10);
    push_str(out, " ");
    push_padded(out, "TAB", 8);
    push_str(out, " ");
    push_padded(out, "INDEX", 6);
    push_str(out, " ");
    push_padded(out, "FOCUSED", 8);
    push_str(out, " ");
    push_str(out, "CWD\n");
    proof {
        assert(out@ =~= start + pane_header());
    }
}

/// Appends the pane table.
pub fn push_panes(out: &mut String, panes: &Vec<PaneSummary>)
    ensures
        final(out)@ == old(out)@ + panes_text(panes@),
{
    let ghost start = out@;
    if panes.len() == 0 {
        push_str(out, "(no panes)\n");
        return;
    }
    push_pane_header(out);
    let ghost head = out@;
    let mut i: usize = 0;
    while i < panes.len()
        invariant
            i <= panes@.len(),
            out@ == head + pane_rows(panes@.take(i as int)),
        decreases panes.len() - i,
    {
        push_pane_row(out, &panes[i]);
        proof {
            assert(panes@.take(i + 1).drop_last() =~= panes@.take(i as int));
            assert(out@ =~= head + pane_rows(panes@.take(i + 1)));
        }
        i += 1;
    }
    proof {
        assert(panes@.take(panes@.len() as int) =~= panes@);
        assert(out@ =~= start + panes_text(panes@));
    }
}

/// Header line of a block.
pub open spec fn block_head(b: BlockEntry) -> Seq<char> {
    "--- block "@ + b.id@ + " (pane "@ + dec(b.pane_id as nat) + ") ---\n"@
}

/// `<prefix><text>\n` for a present value, nothing otherwise.
pub open spec fn opt_line(prefix: Seq<char>, o: Option<String>) -> Seq<char> {
    match o {
        Some(v) => prefix + v@ + "\n"@,
        None => seq![],
    }
}

/// The output of a block without trailing whitespace, on its own line, when
/// the output is not empty.
pub open spec fn block_output_part(b: BlockEntry) -> Seq<char> {
    if b.output@.len() > 0 {
        trim_end(b.output@) + "\n"@
    } else {
        seq![]
    }
}

/// The exit code line of a finished block.
pub open spec fn block_exit_part(b: BlockEntry) -> Seq<char> {
    match b.exit_code {
        Some(code) => "(exit "@ + dec_int(code as int) + ")\n"@,
        None => seq![],
    }
}

/// One block in full: header, working directory, command, output without
/// trailing whitespace, and exit code, each on its own line when present.
pub open spec fn block_text(b: BlockEntry) -> Seq<char> {
    block_head(b) + opt_line("pwd: "@, b.pwd) + opt_line("$ "@, b.command) + block_output_part(b)
        + block_exit_part(b)
}

fn push_opt_line(out: &mut String, prefix: &str, o: &Option<String>)
    ensures
        final(out)@ == old(out)@ + opt_line(prefix@, *o),
{
    let ghost start = out@;
    match o {
        Some(v) => {
            push_str(out, prefix);
            push_str(out, v.as_str());
            push_str(out, "\n");
        },
        None => {},
    }
    proof {
        assert(out@ =~= start + opt_line(prefix@, *o));
    }
}

/// Appends `trim_end(s)`.
fn push_trimmed_end(out: &mut String, s: &str)
    ensures
        final(out)@ == old(out)@ + trim_end(s@),
{
    let v = chars_of(s);
    let k = skip_ws_backward(&v, 0, v.len());
    proof {
        assert(v@.subrange(0, v@.len() as int) =~= v@);
    }
    push_chars(out, &v, 0, k);
}

/// Appends one block in full.
pub fn push_one_block(out: &mut String, b: &BlockEntry)
    ensures
        final(out)@ == old(out)@ + block_text(*b),
{
    let ghost start = out@;
    push_str(out, "--- block ");
    push_str(out, b.id.as_str());
    push_str(out, " (pane ");
    push_decimal(out, b.pane_id);
    push_str(out, ") ---\n");
    let ghost s1 = out@;
    proof {
        assert(s1 =~= start + block_head(*b));
    }
    push_opt_line(out, "pwd: ", &b.pwd);
    let ghost s2 = out@;
    push_opt_line(out, "$ ", &b.command);
    let ghost s3 = out@;
    let ov = chars_of(b.output.as_str());
    if ov.len() > 0 {
        push_trimmed_end(out, b.output.as_str());
        push_str(out, "\n");
    }
    let ghost s4 = out@;
    proof {
        assert(s4 =~= s3 + block_output_part(*b));
    }
    match b.exit_code {
        Some(code) => {
            push_str(out, "(exit ");
            push_decimal_i32(out, code);
            push_str(out, ")\n");
        },
        None => {},
    }
    proof {
        assert(out@ =~= s4 + block_exit_part(*b));
        assert(out@ =~= start + block_text(*b));
    }
}

/// Blocks in full, one after another.
pub open spec fn blocks_text(bs: Seq<BlockEntry>) -> Seq<char>
    decreases bs.len(),
{
    if bs.len() == 0 {
        seq![]
    } else {
        blocks_text(bs.drop_last()) + block_text(bs.last())
    }
}

fn push_blocks_full(out: &mut String, blocks: &Vec<BlockEntry>)
    ensures
        final(out)@ == old(out)@ + blocks_text(blocks@),
{
    let ghost head = out@;
    let mut i: usize = 0;
    while i < blocks.len()
        invariant
            i <= blocks@.len(),
            out@ == head + blocks_text(blocks@.take(i as int)),
        decreases blocks.len() - i,
    {
        push_one_block(out, &blocks[i]);
        proof {
            assert(blocks@.take(i + 1).drop_last() =~= blocks@.take(i as int));
            assert(out@ =~= head + blocks_text(blocks@.take(i + 1)));
        }
        i += 1;
    }
    proof {
        assert(blocks@.take(blocks@.len() as int) =~= blocks@);
    }
}

/// The output of `pane read`.
pub open spec fn pane_output_text(pane: u64, bs: Seq<BlockEntry>) -> Seq<char> {
    if bs.len() == 0 {
        "(pane "@ + dec(pane as nat) + " has no blocks)\n"@
    } else {
        "# pane "@ + dec(pane as nat) + ": last "@ + dec(bs.len()) + " block(s)\n"@ + blocks_text(bs)
    }
}

fn push_pane_output(out: &mut String, pane: u64, blocks: &Vec<BlockEntry>)
    ensures
        final(out)@ == old(out)@ + pane_output_text(pane, blocks@),
{
    let ghost start = out@;
    if blocks.len() == 0 {
        push_str(out, "(pane ");
        push_decimal(out, pane);
        push_str(out, " has no blocks)\n");
    } else {
        push_str(out, "# pane ");
        push_decimal(out, pane);
        push_str(out, ": last ");
        push_decimal(out, blocks.len() as u64);
        push_str(out, " block(s)\n");
        push_blocks_full(out, blocks);
    }
    proof {
        assert(out@ =~= start + pane_output_text(pane, blocks@));
    }
}

/// The first line of `s` as `str::lines` gives it (without a trailing `\r`),
/// or nothing for an empty `s`.
pub open spec fn first_line(s: Seq<char>) -> Seq<char> {
    let k = find_char_from(s, '\n', 0);
    let l = if k == -1 {
        s
    } else {
        s.take(k)
    };
    if l.len() > 0 && l.last() == '\r' {
        l.drop_last()
    } else {
        l
    }
}

/// One row of the block table.
pub open spec fn block_row(b: BlockEntry) -> Seq<char> {
    pad(b.id@, 40) + " "@ + pad(dec(b.pane_id as nat), 10) + " "@ + pad(
        match b.exit_code {
            Some(c) => dec_int(c as int),
            None => "-"@,
        },
        8,
    ) + " "@ + first_line(or_default(b.command, "-"@)) + "\n"@
}

/// Rows for a sequence of blocks.
pub open spec fn block_rows(bs: Seq<BlockEntry>) -> Seq<char>
    decreases bs.len(),
{
    if bs.len() == 0 {
        seq![]
    } else {
        block_rows(bs.drop_last()) + block_row(bs.last())
    }
}

/// The block table: `(no blocks)` or a header and one row per block.
pub open spec fn block_table_text(bs: Seq<BlockEntry>) -> Seq<char> {
    if bs.len() == 0 {
        "(no blocks)\n"@
    } else {
        pad("BLOCK"@, 40) + " "@ + pad("PANE"@, 10) + " "@ + pad("EXIT"@, 8) + " "@ + "COMMAND\n"@
            + block_rows(bs)
    }
}

fn push_first_line(out: &mut String, s: &str)
    ensures
        final(out)@ == old(out)@ + first_line(s@),
{
    let v = chars_of(s);
    let k = find_char(&v, 0, v.len(), '\n');
    let ghost l = if k == v.len() {
        v@
    } else {
        v@.take(k as int)
    };
    proof {
        assert(v@.subrange(0, k as int) =~= l);
    }
    if k > 0 && v[k - 1] == '\r' {
        proof {
            assert(l.last() == v@[k - 1]);
            assert(v@.subrange(0, k - 1) =~= l.drop_last());
        }
        push_chars(out, &v, 0, k - 1);
    } else {
        push_chars(out, &v, 0, k);
    }
}

fn push_block_row(out: &mut String, b: &BlockEntry)
    ensures
        final(out)@ == old(out)@ + block_row(*b),
{
    let ghost start = out@;
    push_padded(out, b.id.as_str(), 40);
    push_str(out, " ");
    push_padded_u64(out, b.pane_id, 10);
    push_str(out, " ");
    let mut exit = String::new();
    match b.exit_code {
        Some(c) => push_decimal_i32(&mut exit, c),
        None => push_str(&mut exit, "-"),
    }
    proof {
        assert(exit@ =~= match b.exit_code {
            Some(c) => dec_int(c as int),
            None => "-"@,
        });
    }
    push_padded(out, exit.as_str(), 8);
    push_str(out, " ");
    match &b.command {
        Some(c) => push_first_line(out, c.as_str()),
        None => push_first_line(out, "-"),
    }
    push_str(out, "\n");
    proof {
        assert(out@ =~= start + block_row(*b));
    }
}

fn push_block_table(out: &mut String, blocks: &Vec<BlockEntry>)
    ensures
        final(out)@ == old(out)@ + block_table_text(blocks@),
{
    let ghost start = out@;
    if blocks.len() == 0 {
        push_str(out, "(no blocks)\n");
        return;
    }
    push_padded(out, "BLOCK", 40);
    push_str(out, " ");
    push_padded(out, "PANE", 10);
    push_str(out, " ");
    push_padded(out, "EXIT", 8);
    push_str(out, " ");
    push_str(out, "COMMAND\n");
    let ghost head = out@;
    let mut i: usize = 0;
    while i < blocks.len()
        invariant
            i <= blocks@.len(),
            out@ == head + block_rows(blocks@.take(i as int)),
        decreases blocks.len() - i,
    {
        push_block_row(out, &blocks[i]);
        proof {
            assert(blocks@.take(i + 1).drop_last() =~= blocks@.take(i as int));
            assert(out@ =~= head + block_rows(blocks@.take(i + 1)));
        }
        i += 1;
    }
    proof {
        assert(blocks@.take(blocks@.len() as int) =~= blocks@);
        assert(out@ =~= start + block_table_text(blocks@));
    }
}

/// A snapshot block: the block in full, then a truncation note if its
/// output was cut.
pub open spec fn snapshot_block_text(b: BlockEntry) -> Seq<char> {
    block_text(b) + (if b.output_truncated {
        "(output truncated)\n"@
    } else {
        seq![]
    })
}

/// Snapshot blocks, one after another.
pub open spec fn snapshot_blocks_text(bs: Seq<BlockEntry>) -> Seq<char>
    decreases bs.len(),
{
    if bs.len() == 0 {
        seq![]
    } else {
        snapshot_blocks_text(bs.drop_last()) + snapshot_block_text(bs.last())
    }
}

/// First line of a snapshot.
pub open spec fn snapshot_head(s: PaneSnapshot) -> Seq<char> {
    "# pane "@ + dec(s.pane.id as nat) + " snapshot (tab "@ + dec(s.pane.tab_id as nat)
        + ", focused: "@ + bool_text(s.pane.focused) + ")\n"@
}

/// The screen part of a snapshot.
pub open spec fn snapshot_screen_part(s: PaneSnapshot) -> Seq<char> {
    match s.screen {
        Some(scr) => "--- screen ("@ + (if scr.alt_screen {
            "alt-screen"@
        } else {
            "primary"@
        }) + ") ---\n"@ + trim_end(scr.text@) + "\n"@ + (if scr.text_truncated {
            "(screen text truncated)\n"@
        } else {
            seq![]
        }),
        None => seq![],
    }
}

/// The blocks part of a snapshot.
pub open spec fn snapshot_blocks_part(s: PaneSnapshot) -> Seq<char> {
    if s.blocks@.len() > 0 {
        "--- recent blocks ---\n"@ + snapshot_blocks_text(s.blocks@)
    } else {
        seq![]
    }
}

/// The text form of a pane snapshot.
pub open spec fn snapshot_text(s: PaneSnapshot) -> Seq<char> {
    snapshot_head(s) + opt_line("cwd: "@, s.pane.cwd) + snapshot_screen_part(s)
        + snapshot_blocks_part(s)
}

fn push_snapshot_head(out: &mut String, s: &PaneSnapshot)
    ensures
        final(out)@ == old(out)@ + snapshot_head(*s),
{
    let ghost start = out@;
    push_str(out, "# pane ");
    push_decimal(out, s.pane.id);
    push_str(out, " snapshot (tab ");
    push_decimal(out, s.pane.tab_id);
    push_str(out, ", focused: ");
    push_str(out, if s.pane.focused { "true" } else { "false" });
    push_str(out, ")\n");
    proof {
        assert(out@ =~= start + snapshot_head(*s));
    }
}

fn push_snapshot_screen(out: &mut String, s: &PaneSnapshot)
    ensures
        final(out)@ == old(out)@ + snapshot_screen_part(*s),
{
    let ghost start = out@;
    match &s.screen {
        Some(scr) => {
            push_str(out, "--- screen (");
            push_str(out, if scr.alt_screen { "alt-screen" } else { "primary" });
            push_str(out, ") ---\n");
            push_trimmed_end(out, scr.text.as_str());
            push_str(out, "\n");
            if scr.text_truncated {
                push_str(out, "(screen text truncated)\n");
            }
        },
        None => {},
    }
    proof {
        assert(out@ =~= start + snapshot_screen_part(*s));
    }
}

fn push_snapshot_blocks(out: &mut String, s: &PaneSnapshot)
    ensures
        final(out)@ == old(out)@ + snapshot_blocks_part(*s),
{
    let ghost start = out@;
    if s.blocks.len() > 0 {
        push_str(out, "--- recent blocks ---\n");
        let ghost head = out@;
        let mut i: usize = 0;
        while i < s.blocks.len()
            invariant
                i <= s.blocks@.len(),
                out@ == head + snapshot_blocks_text(s.blocks@.take(i as int)),
            decreases s.blocks.len() - i,
        {
            let ghost before = out@;
            push_one_block(out, &s.blocks[i]);
            if s.blocks[i].output_truncated {
                push_str(out, "(output truncated)\n");
            }
            proof {
                assert(out@ =~= before + snapshot_block_text(s.blocks@[i as int]));
                assert(s.blocks@.take(i + 1).drop_last() =~= s.blocks@.take(i as int));
                assert(out@ =~= head + snapshot_blocks_text(s.blocks@.take(i + 1)));
            }
            i += 1;
        }
        proof {
            assert(s.blocks@.take(s.blocks@.len() as int) =~= s.blocks@);
        }
    }
    proof {
        assert(out@ =~= start + snapshot_blocks_part(*s));
    }
}

/// Appends the text form of a pane snapshot.
pub fn push_snapshot(out: &mut String, s: &PaneSnapshot)
    ensures
        final(out)@ == old(out)@ + snapshot_text(*s),
{
    let ghost start = out@;
    push_snapshot_head(out, s);
    push_opt_line(out, "cwd: ", &s.pane.cwd);
    push_snapshot_screen(out, s);
    push_snapshot_blocks(out, s);
    proof {
        assert(out@ =~= start + snapshot_text(*s));
    }
}

/// Where a match was found, as shown to the user.
pub open spec fn match_source_text(m: TextMatch) -> Seq<char> {
    match m.source {
        TextMatchSource::Screen => "screen"@,
        TextMatchSource::Block => match m.block_id {
            Some(id) => "block "@ + id@,
            None => "block"@,
        },
    }
}

/// The text form of a match: where and when, then the matching line (or the
/// matched text when the line is empty).
pub open spec fn text_match_text(m: TextMatch, elapsed_ms: u64) -> Seq<char> {
    "matched in pane "@ + dec(m.pane_id as nat) + " "@ + match_source_text(m) + " after "@
        + duration_text(elapsed_ms) + "\n"@ + (match m.line {
        Some(l) => l@,
        None => m.text@,
    }) + "\n"@
}

/// Appends the text form of a match.
pub fn push_text_match(out: &mut String, m: &TextMatch, elapsed_ms: u64)
    ensures
        final(out)@ == old(out)@ + text_match_text(*m, elapsed_ms),
{
    let ghost start = out@;
    push_str(out, "matched in pane ");
    push_decimal(out, m.pane_id);
    push_str(out, " ");
    match m.source {
        TextMatchSource::Screen => push_str(out, "screen"),
        TextMatchSource::Block => match &m.block_id {
            Some(id) => {
                push_str(out, "block ");
                push_str(out, id.as_str());
            },
            None => push_str(out, "block"),
        },
    }
    push_str(out, " after ");
    let d = format_duration_ms(elapsed_ms);
    push_str(out, d.as_str());
    push_str(out, "\n");
    match &m.line {
        Some(l) => push_str(out, l.as_str()),
        None => push_str(out, m.text.as_str()),
    }
    push_str(out, "\n");
    proof {
        assert(out@ =~= start + text_match_text(*m, elapsed_ms));
    }
}

/// The text the CLI prints for a response (empty when it prints JSON or
/// only fails).
pub open spec fn response_text(r: Response) -> Seq<char> {
    match r {
        Response::Pong => "pong\n"@,
        Response::Success => "ok\n"@,
        Response::Tabs { tabs } => tabs_text(tabs@),
        Response::Panes { panes } => panes_text(panes@),
        Response::PaneOutput { pane, blocks } => pane_output_text(pane, blocks@),
        Response::Screen { pane, alt_screen, text } => "# pane "@ + dec(pane as nat) + " screen ("@
            + (if alt_screen {
            "alt-screen"@
        } else {
            "primary"@
        }) + "):\n"@ + trim_end(text@) + "\n"@,
        Response::PaneSnapshot { snapshot, json } => if json {
            seq![]
        } else {
            snapshot_text(snapshot)
        },
        Response::WaitForTextMatched { elapsed_ms, matched, json, .. } => if json {
            seq![]
        } else {
            text_match_text(matched, elapsed_ms)
        },
        Response::WaitForTextTimedOut { .. } => seq![],
        Response::ShareStarted { pane } => "sharing started for pane "@ + dec(pane as nat)
            + " (pending)\n"@,
        Response::ShareLink { url, .. } => url@ + "\n"@,
        Response::SharePending { pane } => "sharing pending for pane "@ + dec(pane as nat)
            + "; retry pane share-link\n"@,
        Response::ShareStopped { pane } => "sharing stopped for pane "@ + dec(pane as nat) + "\n"@,
        Response::Blocks { blocks } => block_table_text(blocks@),
        Response::Block { block } => block_text(block),
        Response::SendTimedOut { block, .. } => block_text(block),
        Response::Error { .. } => seq![],
    }
}

/// The JSON document the CLI prints for a response.
pub open spec fn response_json(r: Response) -> JsonOutput {
    match r {
        Response::PaneSnapshot { json, .. } => if json {
            JsonOutput::Snapshot
        } else {
            JsonOutput::Nothing
        },
        Response::WaitForTextMatched { json, .. } => if json {
            JsonOutput::Matched
        } else {
            JsonOutput::Nothing
        },
        Response::WaitForTextTimedOut { json, .. } => if json {
            JsonOutput::TimedOut
        } else {
            JsonOutput::Nothing
        },
        _ => JsonOutput::Nothing,
    }
}

/// The error the CLI fails with for a response: timeouts and errors fail.
pub open spec fn response_error(r: Response) -> Option<Seq<char>> {
    match r {
        Response::WaitForTextTimedOut { pane, timeout_ms, .. } => Some(
            "text did not appear in pane "@ + dec(pane as nat) + " after "@ + duration_text(
                timeout_ms,
            ),
        ),
        Response::SendTimedOut { timeout_ms, .. } => Some(
            "command still running after "@ + duration_text(timeout_ms) + "; it was not stopped"@,
        ),
        Response::Error { message } => Some(message@),
        _ => None,
    }
}

/// Decides what the CLI shows for a response.
pub fn render_response(response: &Response) -> (r: RenderedResponse)
    ensures
        r.text@ == response_text(*response),
        r.json == response_json(*response),
        opt_view(r.error) == response_error(*response),
{
    let mut text = String::new();
    let mut json = JsonOutput::Nothing;
    let mut error: Option<String> = None;
    match response {
        Response::Pong => push_str(&mut text, "pong\n"),
        Response::Success => push_str(&mut text, "ok\n"),
        Response::Tabs { tabs } => push_tabs(&mut text, tabs),
        Response::Panes { panes } => push_panes(&mut text, panes),
        Response::PaneOutput { pane, blocks } => push_pane_output(&mut text, *pane, blocks),
        Response::Screen { pane, alt_screen, text: screen } => {
            push_str(&mut text, "# pane ");
            push_decimal(&mut text, *pane);
            push_str(&mut text, " screen (");
            push_str(&mut text, if *alt_screen { "alt-screen" } else { "primary" });
            push_str(&mut text, "):\n");
            push_trimmed_end(&mut text, screen.as_str());
            push_str(&mut text, "\n");
        },
        Response::PaneSnapshot { snapshot, json: as_json } => {
            if *as_json {
                json = JsonOutput::Snapshot;
            } else {
                push_snapshot(&mut text, snapshot);
            }
        },
        Response::WaitForTextMatched { elapsed_ms, matched, json: as_json, .. } => {
            if *as_json {
                json = JsonOutput::Matched;
            } else {
                push_text_match(&mut text, matched, *elapsed_ms);
            }
        },
        Response::WaitForTextTimedOut { pane, timeout_ms, json: as_json, .. } => {
            if *as_json {
                json = JsonOutput::TimedOut;
            }
            let mut e = String::new();
            push_str(&mut e, "text did not appear in pane ");
            push_decimal(&mut e, *pane);
            push_str(&mut e, " after ");
            let d = format_duration_ms(*timeout_ms);
            push_str(&mut e, d.as_str());
            error = Some(e);
        },
        Response::ShareStarted { pane } => {
            push_str(&mut text, "sharing started for pane ");
            push_decimal(&mut text, *pane);
            push_str(&mut text, " (pending)\n");
        },
        Response::ShareLink { url, .. } => {
            push_str(&mut text, url.as_str());
            push_str(&mut text, "\n");
        },
        Response::SharePending { pane } => {
            push_str(&mut text, "sharing pending for pane ");
            push_decimal(&mut text, *pane);
            push_str(&mut text, "; retry pane share-link\n");
        },
        Response::ShareStopped { pane } => {
            push_str(&mut text, "sharing stopped for pane ");
            push_decimal(&mut text, *pane);
            push_str(&mut text, "\n");
        },
        Response::Blocks { blocks } => push_block_table(&mut text, blocks),
        Response::Block { block } => push_one_block(&mut text, block),
        Response::SendTimedOut { timeout_ms, block, .. } => {
            push_one_block(&mut text, block);
            let mut e = String::new();
            push_str(&mut e, "command still running after ");
            let d = format_duration_ms(*timeout_ms);
            push_str(&mut e, d.as_str());
            push_str(&mut e, "; it was not stopped");
            error = Some(e);
        },
        Response::Error { message } => {
            error = Some(message.clone());
        },
    }
    proof {
        assert(text@ =~= response_text(*response));
        assert(opt_view(error) =~~= response_error(*response));
    }
    RenderedResponse { text, json, error }
}

/// Text `t` occurs in `m`.
pub open spec fn occurs_in(m: Seq<char>, t: Seq<char>) -> bool {
    exists|k: int| 0 <= k && k + t.len() <= m.len() && #[trigger] m.subrange(k, k + t.len()) == t
}

/// A duration reads back as the number it shows: whole seconds as
/// `<secs>s`, anything else as `<ms>ms`.
pub proof fn lemma_duration_text_reads_back(ms: u64)
    ensures
        ms % 1000 == 0 ==> {
            let d = duration_text(ms);
            &&& d.len() > 1
            &&& d.last() == 's'
            &&& parse_u64_spec(d.drop_last()) == Some((ms / 1000) as u64)
        },
        ms % 1000 != 0 ==> {
            let d = duration_text(ms);
            &&& d.len() > 2
            &&& d.skip(d.len() - 2) == "ms"@
            &&& parse_u64_spec(d.take(d.len() - 2)) == Some(ms)
        },
{
    reveal_strlit("s");
    reveal_strlit("ms");
    lemma_parse_u64_of_dec((ms / 1000) as u64);
    lemma_parse_u64_of_dec(ms);
    lemma_dec_digits((ms / 1000) as nat);
    lemma_dec_digits(ms as nat);
    let d = duration_text(ms);
    if ms % 1000 == 0 {
        assert(d.drop_last() =~= dec((ms / 1000) as nat));
    } else {
        assert(d.take(d.len() - 2) =~= dec(ms as nat));
        assert(d.skip(d.len() - 2) =~= "ms"@);
    }
}

/// The CLI fails exactly for an error or a timeout. An error fails with its
/// message; a timed-out wait or a command still running at its timeout
/// fails with a message that names the timeout.
pub proof fn lemma_failing_responses(r: Response)
    ensures
        response_error(r) is Some <==> (r is Error || r is WaitForTextTimedOut || r is SendTimedOut),
        r matches Response::Error { message } ==> response_error(r) == Some(message@),
        r matches Response::SendTimedOut { timeout_ms, .. } ==> occurs_in(
            response_error(r)->0,
            duration_text(timeout_ms),
        ),
        r matches Response::WaitForTextTimedOut { timeout_ms, .. } ==> occurs_in(
            response_error(r)->0,
            duration_text(timeout_ms),
        ),
{
    reveal_strlit("command still running after ");
    reveal_strlit("text did not appear in pane ");
    reveal_strlit(" after ");
    match r {
        Response::SendTimedOut { timeout_ms, .. } => {
            let m = response_error(r)->0;
            let t = duration_text(timeout_ms);
            let k = "command still running after "@.len() as int;
            assert(m.subrange(k, k + t.len()) =~= t);
        },
        Response::WaitForTextTimedOut { pane, timeout_ms, .. } => {
            let m = response_error(r)->0;
            let t = duration_text(timeout_ms);
            let k = ("text did not appear in pane "@ + dec(pane as nat) + " after "@).len() as int;
            assert(m.subrange(k, k + t.len()) =~= t);
        },
        _ => {},
    }
}

} // verus!
