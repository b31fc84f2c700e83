//! What a pane is doing, for pane listings: whether a command runs, which
//! program is in the foreground, and a one-line preview of the pane's text.

use vstd::prelude::*;
use crate::cli::{join_with_spaces, join_words};
use crate::text::{
    chars_of, is_ws, opt_view, push_str, rfind_char, rfind_char_before, split_words, string_from,
    trim, trim_bounds, views, words,
};
use crate::workspace::{BlockRecord, PaneRecord};

verus! {

/// The longest preview line, in characters.
pub const PANE_LIST_PREVIEW_MAX_CHARS: usize = 60;

/// The words of `line` joined with single spaces.
pub open spec fn normalized(line: Seq<char>) -> Seq<char> {
    join_words(words(line))
}

/// A preview line: the normalized line, or, when it is longer than
/// `max` characters, its first `max - 3` characters (none when `max < 3`)
/// followed by `...`.
pub open spec fn preview_line_spec(line: Seq<char>, max: nat) -> Seq<char> {
    let n = normalized(line);
    if n.len() <= max {
        n
    } else {
        n.take(
            if max >= 3 {
                max - 3
            } else {
                0
            },
        ) + "..."@
    }
}

/// Shortens a line for a preview (see `preview_line_spec`).
pub fn truncate_preview_line(line: &str, max_chars: usize) -> (r: String)
    ensures
        r@ == preview_line_spec(line@, max_chars as nat),
{
    let parts = split_words(line);
    let joined = join_with_spaces(&parts);
    let n = chars_of(joined.as_str());
    if n.len() <= max_chars {
        return joined;
    }
    let keep = if max_chars >= 3 {
        max_chars - 3
    } else {
        0
    };
    let mut r = string_from(&n, 0, keep);
    push_str(&mut r, "...");
    proof {
        assert(n@.subrange(0, keep as int) =~= n@.take(keep as int));
    }
    r
}

/// `rfind_char_before` stays below the position it searches from.
pub proof fn lemma_rfind_below(s: Seq<char>, c: char, i: int)
    requires
        0 <= i <= s.len(),
    ensures
        -1 <= rfind_char_before(s, c, i) < i,
    decreases i,
{
    if i > 0 && s[i - 1] != c {
        lemma_rfind_below(s, c, i - 1);
    }
}

/// The last line of `t[..end]` that is not blank, trimmed: lines are the
/// pieces between newlines, taken from the end.
pub open spec fn last_nonblank_line(t: Seq<char>, end: int) -> Option<Seq<char>>
    decreases end,
{
    if end < 0 || end > t.len() {
        None
    } else {
        let k = rfind_char_before(t, '\n', end);
        let line = trim(t.subrange(k + 1, end));
        if line.len() > 0 {
            Some(line)
        } else if k < 0 {
            None
        } else {
            proof {
                lemma_rfind_below(t, '\n', end);
            }
            last_nonblank_line(t, k)
        }
    }
}

/// The preview of a text: its last non-blank line, shortened.
pub open spec fn preview_text_spec(t: Seq<char>) -> Option<Seq<char>> {
    match last_nonblank_line(t, t.len() as int) {
        Some(l) => Some(preview_line_spec(l, PANE_LIST_PREVIEW_MAX_CHARS as nat)),
        None => None,
    }
}

/// The preview of a text (see `preview_text_spec`).
pub fn preview_line_from_text(text: &str) -> (r: Option<String>)
    ensures
        opt_view(r) == preview_text_spec(text@),
{
    let v = chars_of(text);
    let mut end = v.len();
    while true
        invariant
            end <= v@.len(),
            v@ == text@,
            last_nonblank_line(v@, v@.len() as int) == last_nonblank_line(v@, end as int),
        decreases end,
    {
        let k = rfind_char(&v, end, '\n');
        let lo = match k {
            Some(i) => i + 1,
            None => 0,
        };
        let (a, b) = trim_bounds(&v, lo, end);
        if a < b {
            let line = string_from(&v, a, b);
            return Some(truncate_preview_line(line.as_str(), PANE_LIST_PREVIEW_MAX_CHARS));
        }
        match k {
            Some(i) => {
                end = i;
            },
            None => {
                return None;
            },
        }
    }
    None
}

/// The preview from the blocks before index `i`, newest first: a block's
/// output, else its command.
pub open spec fn blocks_preview(bs: Seq<BlockRecord>, i: int) -> Option<Seq<char>>
    decreases i,
{
    if i <= 0 || i > bs.len() {
        None
    } else {
        match preview_text_spec(bs[i - 1].output@) {
            Some(p) => Some(p),
            None => match preview_text_spec(bs[i - 1].command@) {
                Some(p) => Some(p),
                None => blocks_preview(bs, i - 1),
            },
        }
    }
}

/// The preview from a pane's blocks (see `blocks_preview`).
pub fn preview_line_from_blocks(blocks: &Vec<BlockRecord>) -> (r: Option<String>)
    ensures
        opt_view(r) == blocks_preview(blocks@, blocks@.len() as int),
{
    let mut i = blocks.len();
    while i > 0
        invariant
            i <= blocks@.len(),
            blocks_preview(blocks@, blocks@.len() as int) == blocks_preview(blocks@, i as int),
        decreases i,
    {
        let b = &blocks[i - 1];
        match preview_line_from_text(b.output.as_str()) {
            Some(p) => {
                return Some(p);
            },
            None => {},
        }
        match preview_line_from_text(b.command.as_str()) {
            Some(p) => {
                return Some(p);
            },
            None => {},
        }
        i -= 1;
    }
    None
}

/// The preview of a pane: of the screen when a full-screen app runs;
/// otherwise of the blocks, else of the screen.
pub open spec fn pane_preview_spec(p: PaneRecord) -> Option<Seq<char>> {
    if p.alt_screen {
        preview_text_spec(p.screen_text@)
    } else {
        match blocks_preview(p.blocks@, p.blocks@.len() as int) {
            Some(x) => Some(x),
            None => preview_text_spec(p.screen_text@),
        }
    }
}

/// The preview of a pane (see `pane_preview_spec`).
pub fn pane_preview(pane: &PaneRecord) -> (r: Option<String>)
    ensures
        opt_view(r) == pane_preview_spec(*pane),
{
    if pane.alt_screen {
        return preview_line_from_text(pane.screen_text.as_str());
    }
    match preview_line_from_blocks(&pane.blocks) {
        Some(p) => Some(p),
        None => preview_line_from_text(pane.screen_text.as_str()),
    }
}

/// A pane runs a command while its shell bootstraps, while its active
/// block executes, or once that block has started a non-blank command that
/// is not done.
pub open spec fn running_spec(p: PaneRecord, command_is_empty: bool) -> bool {
    !p.bootstrapped || p.active_block.executing || (p.active_block.started && !command_is_empty
        && !p.active_block.done)
}

/// Whether the pane runs a command (see `running_spec`).
pub fn pane_is_running(pane: &PaneRecord, active_command_is_empty: bool) -> (r: bool)
    ensures
        r == running_spec(*pane, active_command_is_empty),
{
    !pane.bootstrapped || pane.active_block.executing || (pane.active_block.started
        && !active_command_is_empty && !pane.active_block.done)
}

/// Index of the first word of `ws`, from `i` on, without an `=`.
pub open spec fn plain_word_from(ws: Seq<Seq<char>>, i: int) -> Option<int>
    decreases ws.len() - i,
{
    if i < 0 || i >= ws.len() {
        None
    } else if !ws[i].contains('=') {
        Some(i)
    } else {
        plain_word_from(ws, i + 1)
    }
}

/// The first word of a command line that is not a variable assignment.
pub open spec fn first_plain_word_spec(command: Seq<char>) -> Option<Seq<char>> {
    match plain_word_from(words(command), 0) {
        Some(i) => Some(words(command)[i]),
        None => None,
    }
}

fn has_char(s: &str, c: char) -> (b: bool)
    ensures
        b == s@.contains(c),
{
    let v = chars_of(s);
    let mut i: usize = 0;
    while i < v.len()
        invariant
            i <= v@.len(),
            v@ == s@,
            forall|j: int| 0 <= j < i ==> v@[j] != c,
        decreases v.len() - i,
    {
        if v[i] == c {
            return true;
        }
        i += 1;
    }
    false
}

/// The first word of a command line that is not a variable assignment
/// (see `first_plain_word_spec`).
pub fn first_plain_word(command: &str) -> (r: Option<String>)
    ensures
        opt_view(r) == first_plain_word_spec(command@),
{
    let parts = split_words(command);
    let ghost ws = views(parts@);
    let mut i: usize = 0;
    while i < parts.len()
        invariant
            i <= parts@.len(),
            ws == views(parts@),
            ws == words(command@),
            plain_word_from(ws, 0) == plain_word_from(ws, i as int),
        decreases parts.len() - i,
    {
        if !has_char(parts[i].as_str(), '=') {
            proof {
                assert(ws[i as int] == parts@[i as int]@);
            }
            return Some(parts[i].clone());
        }
        proof {
            assert(ws[i as int] == parts@[i as int]@);
        }
        i += 1;
    }
    None
}

/// The file-name component of a path, as `Path::file_name` gives it.
pub uninterp spec fn path_file_name(path: Seq<char>) -> Option<Seq<char>>;

/// `Path::file_name` of `path`, as a `String`. The contract names the
/// result; what the component is for a given path is not stated.
#[verifier::external_body]
fn file_name_of(path: &str) -> (r: Option<String>)
    ensures
        opt_view(r) == path_file_name(path@),
{
    std::path::Path::new(path).file_name().and_then(|n| n.to_str()).map(|n| n.to_string())
}

/// A command without its directory: the file-name component of the path,
/// or the command unchanged when it has none.
pub fn strip_command_path(command: String) -> (r: String)
    ensures
        r@ == (match path_file_name(command@) {
            Some(n) => n,
            None => command@,
        }),
{
    match file_name_of(command.as_str()) {
        Some(n) => n,
        None => command,
    }
}

/// Whether a pane is busy, for listings.
#[derive(Debug, Clone, Copy, PartialEq, Eq, Structural)]
pub enum PaneStatus {
    Running,
    Idle,
}

/// What a pane is doing.
pub struct PaneActivity {
    pub status: PaneStatus,
    pub running: bool,
    /// The program in the foreground, while a command runs.
    pub foreground_process: Option<String>,
    /// The pane's preview line, when asked for.
    pub preview: Option<String>,
}

/// The activity of a pane. `parsed_command` is what the shell-command parser
/// makes of the active command, if anything; without it the first word that
/// is not an assignment stands for the program.
pub fn pane_activity(pane: &PaneRecord, include_preview: bool, parsed_command: Option<String>) -> (r:
    PaneActivity)
    ensures
        ({
            let running = running_spec(*pane, trim(pane.active_block.command@).len() == 0);
            let program = match parsed_command {
                Some(c) => Some(c@),
                None => first_plain_word_spec(pane.active_block.command@),
            };
            &&& r.running == running
            &&& r.status == (if running {
                PaneStatus::Running
            } else {
                PaneStatus::Idle
            })
            &&& opt_view(r.foreground_process) == (if running && program is Some {
                Some(
                    match path_file_name(program->0) {
                        Some(n) => n,
                        None => program->0,
                    },
                )
            } else {
                None
            })
            &&& opt_view(r.preview) == (if include_preview {
                pane_preview_spec(*pane)
            } else {
                None
            })
        }),
{
    let cv = chars_of(pane.active_block.command.as_str());
    let (a, b) = trim_bounds(&cv, 0, cv.len());
    proof {
        assert(cv@.subrange(0, cv@.len() as int) =~= cv@);
    }
    let running = pane_is_running(pane, a == b);
    let foreground_process = if running {
        let program = match parsed_command {
            Some(c) => Some(c),
            None => first_plain_word(pane.active_block.command.as_str()),
        };
        match program {
            Some(p) => Some(strip_command_path(p)),
            None => None,
        }
    } else {
        None
    };
    let preview = if include_preview {
        pane_preview(pane)
    } else {
        None
    };
    PaneActivity {
        status: if running {
            PaneStatus::Running
        } else {
            PaneStatus::Idle
        },
        running,
        foreground_process,
        preview,
    }
}

} // verus!
