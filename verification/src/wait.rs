//! `wait-for-text`: what is searched in a pane snapshot, the baseline that
//! hides text present when the wait began, and the decision taken after each
//! poll of the pane.

use vstd::prelude::*;
use crate::matching::{find_in_text, find_in_text_spec, found_view};
use crate::text::{chars_eq_str, chars_of, has_prefix_at, opt_view, push_char, push_str, starts_with, string_from};
use crate::pattern::{regex_build_error, regex_error};
use crate::snapshot::{snapshot_truncated, truncate_snapshot};
use crate::wire::{
    BlockEntry, PaneSnapshot, Response, TextMatch, TextMatchSource, WaitForTextBlockField, WaitForTextMode,
    WaitForTextSince,
};

verus! {

/// The text of a block that `wait-for-text` searches: its output, its
/// command (empty when it has none), or both, the command first and a newline
/// between them when the output is not empty.
pub open spec fn block_text_spec(b: BlockEntry, field: WaitForTextBlockField) -> Seq<char> {
    match field {
        WaitForTextBlockField::Output => b.output@,
        WaitForTextBlockField::Command => match b.command {
            Some(c) => c@,
            None => seq![],
        },
        WaitForTextBlockField::Both => match b.command {
            Some(c) => if b.output@.len() > 0 {
                c@ + seq!['\n'] + b.output@
            } else {
                c@
            },
            None => b.output@,
        },
    }
}

/// The searched text of a block (see `block_text_spec`).
pub fn block_search_text(block: &BlockEntry, field: WaitForTextBlockField) -> (r: String)
    ensures
        r@ == block_text_spec(*block, field),
{
    match field {
        WaitForTextBlockField::Output => block.output.clone(),
        WaitForTextBlockField::Command => match &block.command {
            Some(c) => c.clone(),
            None => String::new(),
        },
        WaitForTextBlockField::Both => match &block.command {
            Some(c) => {
                if !block.output.as_str().is_empty() {
                    let mut s = c.clone();
                    push_char(&mut s, '\n');
                    push_str(&mut s, block.output.as_str());
                    proof {
                        assert(s@ =~= c@ + seq!['\n'] + block.output@);
                    }
                    s
                } else {
                    proof {
                        assert(block.output@.len() == 0);
                    }
                    c.clone()
                }
            },
            None => block.output.clone(),
        },
    }
}

/// The part of `t` that is searched: with `since = now` and a baseline that
/// `t` starts with, what follows the baseline; otherwise all of `t`.
pub open spec fn after_baseline(
    t: Seq<char>,
    baseline: Option<Seq<char>>,
    since: WaitForTextSince,
) -> Seq<char> {
    if since == WaitForTextSince::Now && baseline is Some && starts_with(t, baseline->0) {
        t.skip(baseline->0.len() as int)
    } else {
        t
    }
}

/// The searched part of `text` (see `after_baseline`).
pub fn text_after_baseline(text: &str, baseline: Option<&str>, since: WaitForTextSince) -> (r:
    String)
    ensures
        r@ == after_baseline(text@, opt_str_view(baseline), since),
{
    let t = chars_of(text);
    if since == WaitForTextSince::Now {
        if let Some(b) = baseline {
            let bv = chars_of(b);
            if has_prefix_at(&t, 0, &bv) {
                proof {
                    assert(t@.subrange(0, bv@.len() as int) =~= t@.take(bv@.len() as int));
                }
                return string_from(&t, bv.len(), t.len());
            } else {
                proof {
                    if starts_with(t@, bv@) {
                        assert(t@.subrange(0, bv@.len() as int) =~= t@.take(bv@.len() as int));
                    }
                }
            }
        }
    }
    proof {
        assert(t@.subrange(0, t@.len() as int) =~= t@);
    }
    string_from(&t, 0, t.len())
}

/// The character view of an optional string slice.
pub open spec fn opt_str_view(o: Option<&str>) -> Option<Seq<char>> {
    match o {
        Some(s) => Some(s@),
        None => None,
    }
}

/// What a pane held when a `since = now` wait began: the screen text and,
/// per block id, the block's searched text.
pub struct WaitForTextBaseline {
    pub screen_text: Option<String>,
    pub block_text_by_id: Vec<(String, String)>,
}

/// The baseline text recorded for block `id`: the last entry with that id.
pub open spec fn baseline_for(entries: Seq<(String, String)>, id: Seq<char>) -> Option<Seq<char>>
    decreases entries.len(),
{
    if entries.len() == 0 {
        None
    } else if entries.last().0@ == id {
        Some(entries.last().1@)
    } else {
        baseline_for(entries.drop_last(), id)
    }
}

impl Default for WaitForTextBaseline {
    fn default() -> (r: Self)
        ensures
            r.screen_text is None,
            r.block_text_by_id@.len() == 0,
    {
        WaitForTextBaseline { screen_text: None, block_text_by_id: Vec::new() }
    }
}

impl WaitForTextBaseline {
    /// Records the screen text and every block's searched text of a snapshot.
    pub fn from_snapshot(snapshot: &PaneSnapshot, block_field: WaitForTextBlockField) -> (r: Self)
        ensures
            opt_view(r.screen_text) == (match snapshot.screen {
                Some(sc) => Some(sc.text@),
                None => None::<Seq<char>>,
            }),
            r.block_text_by_id@.len() == snapshot.blocks@.len(),
            forall|i: int|
                0 <= i < snapshot.blocks@.len() ==> (#[trigger] r.block_text_by_id@[i]).0@
                    == snapshot.blocks@[i].id@ && r.block_text_by_id@[i].1@ == block_text_spec(
                    snapshot.blocks@[i],
                    block_field,
                ),
    {
        let screen_text = match &snapshot.screen {
            Some(sc) => Some(sc.text.clone()),
            None => None,
        };
        let mut entries: Vec<(String, String)> = Vec::new();
        let mut i: usize = 0;
        while i < snapshot.blocks.len()
            invariant
                i <= snapshot.blocks@.len(),
                entries@.len() == i,
                forall|j: int|
                    0 <= j < i ==> (#[trigger] entries@[j]).0@ == snapshot.blocks@[j].id@
                        && entries@[j].1@ == block_text_spec(snapshot.blocks@[j], block_field),
            decreases snapshot.blocks.len() - i,
        {
            let b = &snapshot.blocks[i];
            let t = block_search_text(b, block_field);
            entries.push((b.id.clone(), t));
            i += 1;
        }
        WaitForTextBaseline { screen_text, block_text_by_id: entries }
    }

    /// The baseline text of block `id` (see `baseline_for`).
    pub fn block_text(&self, id: &str) -> (r: Option<&str>)
        ensures
            opt_str_view(r) == baseline_for(self.block_text_by_id@, id@),
    {
        let ghost all = self.block_text_by_id@;
        let idv = chars_of(id);
        let mut i = self.block_text_by_id.len();
        proof {
            assert(all.take(all.len() as int) =~= all);
        }
        while i > 0
            invariant
                i <= all.len(),
                all == self.block_text_by_id@,
                idv@ == id@,
                baseline_for(all, id@) == baseline_for(all.take(i as int), id@),
            decreases i,
        {
            proof {
                let t = all.take(i as int);
                assert(t.drop_last() =~= all.take(i - 1));
                assert(t.last() == all[i - 1]);
            }
            let e = &self.block_text_by_id[i - 1];
            if chars_eq_str(&idv, e.0.as_str()) {
                return Some(e.1.as_str());
            }
            i -= 1;
        }
        None
    }
}

/// The parameters of one `wait-for-text` request.
pub struct WaitForTextOptions {
    pub pane: Option<u64>,
    pub text: String,
    pub regex: bool,
    pub timeout_ms: u64,
    pub mode: WaitForTextMode,
    pub case_insensitive: bool,
    pub since: WaitForTextSince,
    pub blocks: usize,
    pub block_field: WaitForTextBlockField,
    pub max_output_bytes: usize,
    pub json: bool,
}

/// A match as plain values: where it was found, the block id for a block
/// match, the matched text and its line.
pub type MatchView = (TextMatchSource, Option<Seq<char>>, Seq<char>, Option<Seq<char>>);

/// What a search of `text` finds under the request's options.
pub open spec fn search(
    text: Seq<char>,
    baseline: Option<Seq<char>>,
    o: WaitForTextOptions,
) -> Option<(Seq<char>, Option<Seq<char>>)> {
    find_in_text_spec(after_baseline(text, baseline, o.since), o.text@, o.regex, o.case_insensitive)
}

/// The first block match among `blocks[0..i]`, searching from the newest
/// block (the last) backwards; gives the block's index with the match.
pub open spec fn block_match_before(
    blocks: Seq<BlockEntry>,
    o: WaitForTextOptions,
    base: Seq<(String, String)>,
    i: int,
) -> Option<(int, (Seq<char>, Option<Seq<char>>))>
    decreases i,
{
    if i <= 0 || i > blocks.len() {
        None
    } else {
        let b = blocks[i - 1];
        match search(block_text_spec(b, o.block_field), baseline_for(base, b.id@), o) {
            Some(m) => Some((i - 1, m)),
            None => block_match_before(blocks, o, base, i - 1),
        }
    }
}

/// The screen match, when the mode includes the screen and the snapshot
/// has one.
pub open spec fn screen_search(
    snapshot: PaneSnapshot,
    o: WaitForTextOptions,
    baseline: WaitForTextBaseline,
) -> Option<(Seq<char>, Option<Seq<char>>)> {
    if o.mode.searches_screen() && snapshot.screen is Some {
        search(snapshot.screen->0.text@, opt_view(baseline.screen_text), o)
    } else {
        None
    }
}

/// What `find_text_match` finds: the screen first (when the mode includes
/// it and the snapshot has one), then the blocks from newest to oldest (when
/// the mode includes them).
pub open spec fn text_match_spec(
    snapshot: PaneSnapshot,
    o: WaitForTextOptions,
    baseline: WaitForTextBaseline,
) -> Option<MatchView> {
    match screen_search(snapshot, o, baseline) {
        Some((t, l)) => Some((TextMatchSource::Screen, None, t, l)),
        None => if o.mode.searches_blocks() {
            match block_match_before(
                snapshot.blocks@,
                o,
                baseline.block_text_by_id@,
                snapshot.blocks@.len() as int,
            ) {
                Some((i, (t, l))) => Some(
                    (TextMatchSource::Block, Some(snapshot.blocks@[i].id@), t, l),
                ),
                None => None,
            }
        } else {
            None
        },
    }
}

/// The plain values of a `TextMatch` other than its pane.
pub open spec fn match_view(m: TextMatch) -> MatchView {
    (m.source, opt_view(m.block_id), m.text@, opt_view(m.line))
}

/// Searches a pane snapshot for the request's text (see `text_match_spec`).
pub fn find_text_match(
    snapshot: &PaneSnapshot,
    options: &WaitForTextOptions,
    baseline: &WaitForTextBaseline,
) -> (r: Option<TextMatch>)
    ensures
        match r {
            Some(m) => m.pane_id == snapshot.pane.id && text_match_spec(
                *snapshot,
                *options,
                *baseline,
            ) == Some(match_view(m)),
            None => text_match_spec(*snapshot, *options, *baseline) is None,
        },
{
    let mut screen_none = true;
    if options.mode.includes_screen() {
        if let Some(screen) = &snapshot.screen {
            let base = match &baseline.screen_text {
                Some(s) => Some(s.as_str()),
                None => None,
            };
            let hay = text_after_baseline(screen.text.as_str(), base, options.since);
            let found = find_in_text(
                hay.as_str(),
                options.text.as_str(),
                options.regex,
                options.case_insensitive,
            );
            match found {
                Some((text, line)) => {
                    return Some(
                        TextMatch {
                            source: TextMatchSource::Screen,
                            pane_id: snapshot.pane.id,
                            block_id: None,
                            text,
                            line,
                        },
                    );
                },
                None => {},
            }
        }
    }
    if options.mode.includes_blocks() {
        let ghost blocks = snapshot.blocks@;
        let mut i = snapshot.blocks.len();
        while i > 0
            invariant
                i <= blocks.len(),
                blocks == snapshot.blocks@,
                screen_search(*snapshot, *options, *baseline) is None,
                options.mode.searches_blocks(),
                block_match_before(blocks, *options, baseline.block_text_by_id@, blocks.len() as int)
                    == block_match_before(blocks, *options, baseline.block_text_by_id@, i as int),
            decreases i,
        {
            let block = &snapshot.blocks[i - 1];
            let text = block_search_text(block, options.block_field);
            let base = baseline.block_text(block.id.as_str());
            let hay = text_after_baseline(text.as_str(), base, options.since);
            let found = find_in_text(
                hay.as_str(),
                options.text.as_str(),
                options.regex,
                options.case_insensitive,
            );
            proof {
                assert(*block == blocks[i - 1]);
            }
            match found {
                Some((text, line)) => {
                    return Some(
                        TextMatch {
                            source: TextMatchSource::Block,
                            pane_id: snapshot.pane.id,
                            block_id: Some(block.id.clone()),
                            text,
                            line,
                        },
                    );
                },
                None => {},
            }
            i -= 1;
        }
    }
    None
}


/// Poll interval of `wait-for-text`, in milliseconds.
pub const WAIT_TEXT_POLL_INTERVAL_MS: u64 = 100;

/// Poll interval of `send-input --wait`, in milliseconds.
pub const SEND_WAIT_POLL_INTERVAL_MS: u64 = 50;

/// Timeout of `send-input --wait` when the request gives none, in milliseconds.
pub const SEND_WAIT_DEFAULT_TIMEOUT_MS: u64 = 120_000;

/// What the server does after one poll.
pub enum WaitStep {
    /// Answer the request with this response.
    Reply(Response),
    /// Poll again after this many milliseconds.
    PollAfter(u64),
}

/// How a `wait-for-text` request polls the pane.
pub struct WaitPlan {
    /// Whether each snapshot includes the screen.
    pub include_screen: bool,
    /// How many of the newest blocks each snapshot includes.
    pub blocks: usize,
    /// Whether a first snapshot is taken as the baseline.
    pub take_baseline: bool,
}

/// The message of an error response.
pub open spec fn error_message(r: Response) -> Seq<char> {
    match r {
        Response::Error { message } => message@,
        _ => seq![],
    }
}

/// A `wait-for-text` request is refused when its text is empty, or when it
/// asks for a regex that does not compile; otherwise it polls the parts of
/// the pane that its mode names and takes a baseline when `since = now`.
pub fn start_wait(options: &WaitForTextOptions) -> (r: Result<WaitPlan, Response>)
    ensures
        match r {
            Ok(plan) => {
                &&& options.text@.len() > 0
                &&& options.regex ==> regex_build_error(options.text@, options.case_insensitive)
                    is None
                &&& plan.include_screen == options.mode.searches_screen()
                &&& plan.blocks == (if options.mode.searches_blocks() {
                    options.blocks
                } else {
                    0
                })
                &&& plan.take_baseline == (options.since == WaitForTextSince::Now)
            },
            Err(e) => {
                &&& e is Error
                &&& if options.text@.len() == 0 {
                    error_message(e) == "text must not be empty"@
                } else {
                    &&& options.regex
                    &&& regex_build_error(options.text@, options.case_insensitive) is Some
                    &&& error_message(e) == "invalid regex: "@ + regex_build_error(
                        options.text@,
                        options.case_insensitive,
                    )->0
                }
            },
        },
{
    if options.text.as_str().is_empty() {
        return Err(Response::Error { message: string_of("text must not be empty") });
    }
    if options.regex {
        match regex_error(options.text.as_str(), options.case_insensitive) {
            Some(err) => {
                let mut message = string_of("invalid regex: ");
                push_str(&mut message, err.as_str());
                return Err(Response::Error { message });
            },
            None => {},
        }
    }
    let include_screen = options.mode.includes_screen();
    let blocks = if options.mode.includes_blocks() {
        options.blocks
    } else {
        0
    };
    Ok(WaitPlan { include_screen, blocks, take_baseline: options.since == WaitForTextSince::Now })
}

/// A new `String` with the characters of `s`.
pub fn string_of(s: &str) -> (r: String)
    ensures
        r@ == s@,
{
    let mut r = String::new();
    push_str(&mut r, s);
    r
}

/// `Some(b)` exactly when `json` is set, with `b` the truncation of `a`.
pub open spec fn json_snapshot(a: PaneSnapshot, b: Option<PaneSnapshot>, json: bool, max: nat) -> bool {
    &&& (b is Some <==> json)
    &&& json ==> snapshot_truncated(a, b->0, max)
}

/// The wait for text after one poll that gave `snapshot`, `elapsed_ms` after
/// the wait began: a match answers with the match; otherwise, once the
/// timeout has passed, the wait answers that it timed out; otherwise it polls
/// again after the poll interval, or sooner when the timeout comes first.
/// With `json`, each answer carries the snapshot truncated to the request's
/// byte limit.
pub fn wait_for_text_step(
    options: &WaitForTextOptions,
    baseline: &WaitForTextBaseline,
    snapshot: PaneSnapshot,
    elapsed_ms: u64,
) -> (r: WaitStep)
    ensures
        match r {
            WaitStep::Reply(Response::WaitForTextMatched { pane, elapsed_ms: e, matched, snapshot: s, json }) => {
                &&& text_match_spec(snapshot, *options, *baseline) == Some(match_view(matched))
                &&& pane == snapshot.pane.id
                &&& matched.pane_id == snapshot.pane.id
                &&& e == elapsed_ms
                &&& json == options.json
                &&& json_snapshot(snapshot, s, options.json, options.max_output_bytes as nat)
            },
            WaitStep::Reply(Response::WaitForTextTimedOut { pane, timeout_ms, elapsed_ms: e, snapshot: s, json }) => {
                &&& text_match_spec(snapshot, *options, *baseline) is None
                &&& elapsed_ms >= options.timeout_ms
                &&& pane == snapshot.pane.id
                &&& timeout_ms == options.timeout_ms
                &&& e == elapsed_ms
                &&& json == options.json
                &&& json_snapshot(snapshot, s, options.json, options.max_output_bytes as nat)
            },
            WaitStep::PollAfter(ms) => {
                &&& text_match_spec(snapshot, *options, *baseline) is None
                &&& elapsed_ms < options.timeout_ms
                &&& ms == (if options.timeout_ms - elapsed_ms < WAIT_TEXT_POLL_INTERVAL_MS {
                    options.timeout_ms - elapsed_ms
                } else {
                    WAIT_TEXT_POLL_INTERVAL_MS as int
                })
            },
            _ => false,
        },
{
    let found = find_text_match(&snapshot, options, baseline);
    match found {
        Some(matched) => {
            let pane = matched.pane_id;
            let snap = if options.json {
                Some(truncate_snapshot(snapshot, options.max_output_bytes))
            } else {
                None
            };
            WaitStep::Reply(
                Response::WaitForTextMatched {
                    pane,
                    elapsed_ms,
                    matched,
                    snapshot: snap,
                    json: options.json,
                },
            )
        },
        None => {
            if elapsed_ms >= options.timeout_ms {
                let pane = snapshot.pane.id;
                let snap = if options.json {
                    Some(truncate_snapshot(snapshot, options.max_output_bytes))
                } else {
                    None
                };
                WaitStep::Reply(
                    Response::WaitForTextTimedOut {
                        pane,
                        timeout_ms: options.timeout_ms,
                        elapsed_ms,
                        snapshot: snap,
                        json: options.json,
                    },
                )
            } else {
                let remaining = options.timeout_ms - elapsed_ms;
                let ms = if remaining < WAIT_TEXT_POLL_INTERVAL_MS {
                    remaining
                } else {
                    WAIT_TEXT_POLL_INTERVAL_MS
                };
                WaitStep::PollAfter(ms)
            }
        },
    }
}

/// What one poll of a submitted command's block found.
pub enum BlockWaitPoll {
    /// The block is still running.
    Running(BlockEntry),
    /// The block has finished.
    Done(BlockEntry),
    /// The pane or the block is gone; answer with this.
    Error(Response),
}

/// The wait of `send-input --wait` after one poll, `elapsed_ms` after the
/// command was submitted: a finished block answers with the block, an error
/// answers with the error; a running block, once the timeout (120 s when the
/// request gives none) has passed, answers that the wait timed out, and
/// otherwise polls again after the poll interval, or sooner when the timeout
/// comes first.
pub fn send_wait_step(pane: u64, timeout_ms: Option<u64>, poll: BlockWaitPoll, elapsed_ms: u64) -> (r:
    WaitStep)
    ensures
        ({
            let t = match timeout_ms {
                Some(t) => t,
                None => SEND_WAIT_DEFAULT_TIMEOUT_MS,
            };
            match poll {
                BlockWaitPoll::Done(b) => r == WaitStep::Reply(Response::Block { block: b }),
                BlockWaitPoll::Error(e) => r == WaitStep::Reply(e),
                BlockWaitPoll::Running(b) => if elapsed_ms >= t {
                    r == WaitStep::Reply(Response::SendTimedOut { pane, timeout_ms: t, block: b })
                } else {
                    r == WaitStep::PollAfter(
                        if t - elapsed_ms < SEND_WAIT_POLL_INTERVAL_MS {
                            (t - elapsed_ms) as u64
                        } else {
                            SEND_WAIT_POLL_INTERVAL_MS
                        },
                    )
                },
            }
        }),
{
    let t = match timeout_ms {
        Some(t) => t,
        None => SEND_WAIT_DEFAULT_TIMEOUT_MS,
    };
    match poll {
        BlockWaitPoll::Done(block) => WaitStep::Reply(Response::Block { block }),
        BlockWaitPoll::Error(e) => WaitStep::Reply(e),
        BlockWaitPoll::Running(block) => {
            if elapsed_ms >= t {
                WaitStep::Reply(Response::SendTimedOut { pane, timeout_ms: t, block })
            } else {
                let remaining = t - elapsed_ms;
                let ms = if remaining < SEND_WAIT_POLL_INTERVAL_MS {
                    remaining
                } else {
                    SEND_WAIT_POLL_INTERVAL_MS
                };
                WaitStep::PollAfter(ms)
            }
        },
    }
}

/// Elapsed milliseconds as a `u64`, saturating at `u64::MAX`.
pub fn elapsed_ms(ms: u128) -> (r: u64)
    ensures
        r == (if ms > u64::MAX as u128 {
            u64::MAX as int
        } else {
            ms as int
        }),
{
    if ms > u64::MAX as u128 {
        u64::MAX
    } else {
        ms as u64
    }
}

/// The baseline entry of a block whose id occurs once is that block's.
proof fn lemma_baseline_for_unique(e: Seq<(String, String)>, id: Seq<char>, j: int)
    requires
        0 <= j < e.len(),
        e[j].0@ == id,
        forall|i: int| 0 <= i < e.len() && i != j ==> (#[trigger] e[i]).0@ != id,
    ensures
        baseline_for(e, id) == Some(e[j].1@),
    decreases e.len(),
{
    if j < e.len() - 1 {
        let d = e.drop_last();
        assert forall|i: int| 0 <= i < d.len() && i != j implies (#[trigger] d[i]).0@ != id by {
            assert(d[i] == e[i]);
        }
        lemma_baseline_for_unique(d, id, j);
    }
}

/// Searching text after a baseline equal to the whole text finds no
/// non-empty literal.
proof fn lemma_literal_after_itself(t: Seq<char>, o: WaitForTextOptions)
    requires
        o.since == WaitForTextSince::Now,
        !o.regex,
        !o.case_insensitive,
        o.text@.len() > 0,
    ensures
        search(t, Some(t), o) is None,
{
    assert(t.take(t.len() as int) =~= t);
    assert(after_baseline(t, Some(t), o.since).len() == 0);
}

proof fn lemma_no_block_match(
    bs: Seq<BlockEntry>,
    o: WaitForTextOptions,
    e: Seq<(String, String)>,
    n: int,
)
    requires
        o.since == WaitForTextSince::Now,
        !o.regex,
        !o.case_insensitive,
        o.text@.len() > 0,
        0 <= n <= bs.len(),
        e.len() == bs.len(),
        forall|i: int|
            0 <= i < bs.len() ==> (#[trigger] e[i]).0@ == bs[i].id@ && e[i].1@ == block_text_spec(
                bs[i],
                o.block_field,
            ),
        forall|i: int, j: int|
            0 <= i < j < bs.len() ==> (#[trigger] bs[i]).id@ != (#[trigger] bs[j]).id@,
    ensures
        block_match_before(bs, o, e, n) is None,
    decreases n,
{
    if n > 0 {
        let i = n - 1;
        assert forall|k: int| 0 <= k < e.len() && k != i implies (#[trigger] e[k]).0@
            != bs[i].id@ by {
            if k < i {
                assert(bs[k].id@ != bs[i].id@);
            } else {
                assert(bs[i].id@ != bs[k].id@);
            }
        }
        lemma_baseline_for_unique(e, bs[i].id@, i);
        lemma_literal_after_itself(block_text_spec(bs[i], o.block_field), o);
        lemma_no_block_match(bs, o, e, n - 1);
    }
}

/// `since = now` hides what was already there: searched against a baseline
/// taken from the same snapshot (as `from_snapshot` records it), a literal,
/// case-sensitive wait finds nothing, provided the blocks' ids differ.
pub proof fn lemma_since_now_ignores_existing_text(
    snapshot: PaneSnapshot,
    o: WaitForTextOptions,
    baseline: WaitForTextBaseline,
)
    requires
        o.since == WaitForTextSince::Now,
        !o.regex,
        !o.case_insensitive,
        o.text@.len() > 0,
        opt_view(baseline.screen_text) == (match snapshot.screen {
            Some(sc) => Some(sc.text@),
            None => None::<Seq<char>>,
        }),
        baseline.block_text_by_id@.len() == snapshot.blocks@.len(),
        forall|i: int|
            0 <= i < snapshot.blocks@.len() ==> (#[trigger] baseline.block_text_by_id@[i]).0@
                == snapshot.blocks@[i].id@ && baseline.block_text_by_id@[i].1@ == block_text_spec(
                snapshot.blocks@[i],
                o.block_field,
            ),
        forall|i: int, j: int|
            0 <= i < j < snapshot.blocks@.len() ==> (#[trigger] snapshot.blocks@[i]).id@
                != (#[trigger] snapshot.blocks@[j]).id@,
    ensures
        text_match_spec(snapshot, o, baseline) is None,
{
    if snapshot.screen is Some {
        lemma_literal_after_itself(snapshot.screen->0.text@, o);
    }
    lemma_no_block_match(snapshot.blocks@, o, baseline.block_text_by_id@, snapshot.blocks@.len() as int);
}

/// With `since = now`, what follows the baseline is exactly what is
/// searched: text that appears after the wait began.
pub proof fn lemma_since_now_searches_appended_text(before: Seq<char>, appended: Seq<char>)
    ensures
        after_baseline(before + appended, Some(before), WaitForTextSince::Now) == appended,
{
    assert((before + appended).take(before.len() as int) =~= before);
    assert((before + appended).skip(before.len() as int) =~= appended);
}

} // verus!
