//! The `control` subcommands of the CLI (tab, pane and block operations on a
//! running app) and the request each of them sends.

use vstd::prelude::*;
use crate::text::{
    chars_of, debug_quoted, debug_str_repr, parse_u64, parse_u64_spec, push_char, push_str, views,
};
use crate::wire::{
    Request, ShareScrollback as WireShareScrollback, SplitDir,
    WaitForTextBlockField as WireBlockField, WaitForTextMode as WireMode,
    WaitForTextSince as WireSince,
};

verus! {

/// Interact with a running app.
#[derive(Debug, Clone)]
pub enum ControlCommand {
    /// Operate on UI tabs.
    Tab(TabCommand),
    /// Operate on panes (one shell process per pane).
    Pane(PaneCommand),
    /// Operate on blocks (executed commands and their output).
    Block(BlockCommand),
}

#[derive(Debug, Clone)]
pub enum TabCommand {
    /// List all open tabs.
    List,
    /// Open a new tab, from a saved tab config when `--config` names one.
    New(TabNewArgs),
    /// Close a tab by id.
    Close(TabIdArg),
    /// Focus a tab by id.
    Focus(TabIdArg),
}

#[derive(Debug, Clone)]
pub struct TabNewArgs {
    /// Name of a saved tab config to open.
    pub config: Option<String>,
}

#[derive(Debug, Clone)]
pub enum PaneCommand {
    /// List panes, optionally filtered by tab.
    List(PaneListArgs),
    /// Send a command to a pane (block-submission path).
    Send(SendInputArgs),
    /// Write raw bytes directly to a pane's PTY.
    Write(WriteBytesArgs),
    /// Send a named keystroke or chord to a pane's PTY.
    Keystroke(KeystrokeArgs),
    /// Read a pane's recent output.
    Read(PaneReadArgs),
    /// Capture a pane's current screen as text.
    Screen(PaneScreenArgs),
    /// Capture a structured pane snapshot.
    Snapshot(PaneSnapshotArgs),
    /// Wait until text appears in a pane's screen or recent blocks.
    WaitForText(WaitForTextArgs),
    /// Start sharing a pane's session.
    Share(PaneShareArgs),
    /// Print the watch link for a shared pane.
    ShareLink(PaneTargetArgs),
    /// Stop sharing a pane's session.
    Unshare(PaneTargetArgs),
    /// Focus a pane by id.
    Focus(PaneIdArg),
    /// Split a pane.
    Split(SplitArgs),
    /// Close a pane by id.
    Close(PaneIdArg),
}

#[derive(Debug, Clone)]
pub struct WriteBytesArgs {
    pub pane: Option<String>,
    /// Text written verbatim (UTF-8).
    pub text: String,
}

#[derive(Debug, Clone)]
pub struct KeystrokeArgs {
    pub pane: Option<String>,
    /// Key name or a `ctrl-<char>` chord.
    pub key: String,
}

#[derive(Debug, Clone)]
pub enum BlockCommand {
    /// List blocks in a pane (most recent last).
    List(BlockListArgs),
    /// Read a block's command and output by id.
    Read(BlockIdArg),
}

#[derive(Debug, Clone)]
pub struct TabIdArg {
    pub id: String,
}

#[derive(Debug, Clone)]
pub struct PaneIdArg {
    pub id: String,
}

#[derive(Debug, Clone)]
pub struct BlockIdArg {
    pub id: String,
}

#[derive(Debug, Clone)]
pub struct PaneListArgs {
    /// Restrict to panes in this tab.
    pub tab: Option<String>,
}

impl Default for PaneListArgs {
    fn default() -> (r: Self)
        ensures
            r.tab is None,
    {
        PaneListArgs { tab: None }
    }
}

#[derive(Debug, Clone)]
pub struct SendInputArgs {
    pub pane: Option<String>,
    /// Wait for the submitted block to finish.
    pub wait: bool,
    /// Maximum seconds to wait (only with `wait`).
    pub timeout: Option<u64>,
    /// The command words, joined with single spaces.
    pub command: Vec<String>,
}

#[derive(Debug, Clone)]
pub struct PaneReadArgs {
    pub pane: Option<String>,
    /// Number of most-recent blocks to include.
    pub blocks: usize,
}

#[derive(Debug, Clone)]
pub struct PaneScreenArgs {
    pub pane: Option<String>,
}

#[derive(Debug, Clone)]
pub struct PaneSnapshotArgs {
    pub pane: Option<String>,
    pub blocks: usize,
    pub no_screen: bool,
    pub max_output_bytes: usize,
    pub json: bool,
}

#[derive(Debug, Clone)]
pub struct WaitForTextArgs {
    pub pane: Option<String>,
    pub regex: bool,
    /// Maximum seconds to wait.
    pub timeout: u64,
    pub mode: WaitForTextMode,
    pub case_insensitive: bool,
    pub since: WaitForTextSince,
    pub blocks: usize,
    pub block_field: WaitForTextBlockField,
    pub max_output_bytes: usize,
    pub json: bool,
    /// Literal text or regular expression to wait for.
    pub text: String,
}

#[derive(Debug, Clone)]
pub struct PaneShareArgs {
    pub pane: Option<String>,
    pub scrollback: ShareScrollback,
}

#[derive(Debug, Clone)]
pub struct PaneTargetArgs {
    pub pane: Option<String>,
}

#[derive(Debug, Clone)]
pub struct SplitArgs {
    pub pane: Option<String>,
    pub direction: SplitDirection,
}

#[derive(Debug, Clone, Copy, PartialEq, Eq, Structural)]
pub enum SplitDirection {
    Left,
    Right,
    Up,
    Down,
}

#[derive(Debug, Clone, Copy, PartialEq, Eq, Structural)]
pub enum ShareScrollback {
    /// Do not include prior scrollback (`none` on the command line).
    Nothing,
    /// Include all shareable prior scrollback.
    All,
}

#[derive(Debug, Clone, Copy, PartialEq, Eq, Structural)]
pub enum WaitForTextMode {
    Screen,
    Blocks,
    Both,
}

#[derive(Debug, Clone, Copy, PartialEq, Eq, Structural)]
pub enum WaitForTextSince {
    All,
    Now,
}

#[derive(Debug, Clone, Copy, PartialEq, Eq, Structural)]
pub enum WaitForTextBlockField {
    Output,
    Command,
    Both,
}

#[derive(Debug, Clone)]
pub struct BlockListArgs {
    pub pane: Option<String>,
    /// Cap on the number of blocks returned (most recent).
    pub limit: usize,
}

/// Why a command line cannot become a request.
#[derive(Debug)]
pub struct RequestError {
    pub message: String,
}

/// `secs * 1000`, saturating at `u64::MAX`.
pub open spec fn secs_to_ms_spec(secs: u64) -> u64 {
    if secs * 1000 > u64::MAX {
        u64::MAX
    } else {
        (secs * 1000) as u64
    }
}

/// Converts seconds to milliseconds, saturating at `u64::MAX`.
pub fn secs_to_ms(secs: u64) -> (r: u64)
    ensures
        r == secs_to_ms_spec(secs),
{
    match secs.checked_mul(1000) {
        Some(ms) => ms,
        None => u64::MAX,
    }
}

/// The words joined with single spaces.
pub open spec fn join_words(words: Seq<Seq<char>>) -> Seq<char>
    decreases words.len(),
{
    if words.len() == 0 {
        seq![]
    } else if words.len() == 1 {
        words[0]
    } else {
        join_words(words.drop_last()) + seq![' '] + words.last()
    }
}

/// Joins `words` with single spaces.
pub fn join_with_spaces(words: &Vec<String>) -> (r: String)
    ensures
        r@ == join_words(views(words@)),
{
    let mut r = String::new();
    let ghost ws = views(words@);
    let mut i: usize = 0;
    while i < words.len()
        invariant
            i <= words@.len(),
            ws == views(words@),
            r@ == join_words(ws.take(i as int)),
        decreases words.len() - i,
    {
        proof {
            assert(ws.take(i + 1).drop_last() =~= ws.take(i as int));
            assert(ws.take(i + 1).last() == words@[i as int]@);
        }
        if i > 0 {
            push_char(&mut r, ' ');
        }
        push_str(&mut r, words[i].as_str());
        proof {
            if i == 0 {
                assert(r@ =~= ws.take(1)[0]);
            } else {
                assert(r@ =~= join_words(ws.take(i as int)) + seq![' '] + ws.take(i + 1).last());
            }
        }
        i += 1;
    }
    proof {
        assert(ws.take(words@.len() as int) =~= ws);
    }
    r
}

/// The message for an id that is not a number.
pub open spec fn bad_id_message(what: Seq<char>, s: Seq<char>) -> Seq<char> {
    what + " id must be a number, got "@ + debug_str_repr(s)
}

/// Parses an id given on the command line.
pub fn parse_id(s: &str, what: &str) -> (r: Result<u64, RequestError>)
    ensures
        match r {
            Ok(n) => parse_u64_spec(s@) == Some(n),
            Err(e) => parse_u64_spec(s@) is None && e.message@ == bad_id_message(what@, s@),
        },
{
    match parse_u64(s) {
        Some(n) => Ok(n),
        None => {
            let mut m = String::new();
            push_str(&mut m, what);
            push_str(&mut m, " id must be a number, got ");
            let q = debug_quoted(s);
            push_str(&mut m, q.as_str());
            proof {
                assert(m@ =~= bad_id_message(what@, s@));
            }
            Err(RequestError { message: m })
        },
    }
}

/// An optional id: `Some(None)` when absent, `Some(Some(n))` when it parses,
/// `None` when it does not.
pub open spec fn opt_id_spec(o: Option<String>) -> Option<Option<u64>> {
    match o {
        None => Some(None),
        Some(s) => match parse_u64_spec(s@) {
            Some(n) => Some(Some(n)),
            None => None,
        },
    }
}

fn parse_opt_id(o: Option<String>, what: &str) -> (r: Result<Option<u64>, RequestError>)
    ensures
        match r {
            Ok(v) => opt_id_spec(o) == Some(v),
            Err(e) => {
                &&& opt_id_spec(o) is None
                &&& (o matches Some(s) && e.message@ == bad_id_message(what@, s@))
            },
        },
{
    match o {
        Some(s) => match parse_id(s.as_str(), what) {
            Ok(n) => Ok(Some(n)),
            Err(e) => Err(e),
        },
        None => Ok(None),
    }
}

/// The id text that a command carries, with what it identifies: the optional
/// `--pane`/`--tab` or the required positional id. `None` for commands with
/// no id (and for block ids, which are not numbers).
pub open spec fn command_id(cmd: ControlCommand) -> Option<(Seq<char>, Option<String>)> {
    match cmd {
        ControlCommand::Tab(TabCommand::Close(a)) => Some(("tab"@, Some(a.id))),
        ControlCommand::Tab(TabCommand::Focus(a)) => Some(("tab"@, Some(a.id))),
        ControlCommand::Pane(PaneCommand::List(a)) => Some(("tab"@, a.tab)),
        ControlCommand::Pane(PaneCommand::Send(a)) => Some(("pane"@, a.pane)),
        ControlCommand::Pane(PaneCommand::Write(a)) => Some(("pane"@, a.pane)),
        ControlCommand::Pane(PaneCommand::Keystroke(a)) => Some(("pane"@, a.pane)),
        ControlCommand::Pane(PaneCommand::Read(a)) => Some(("pane"@, a.pane)),
        ControlCommand::Pane(PaneCommand::Screen(a)) => Some(("pane"@, a.pane)),
        ControlCommand::Pane(PaneCommand::Snapshot(a)) => Some(("pane"@, a.pane)),
        ControlCommand::Pane(PaneCommand::WaitForText(a)) => Some(("pane"@, a.pane)),
        ControlCommand::Pane(PaneCommand::Share(a)) => Some(("pane"@, a.pane)),
        ControlCommand::Pane(PaneCommand::ShareLink(a)) => Some(("pane"@, a.pane)),
        ControlCommand::Pane(PaneCommand::Unshare(a)) => Some(("pane"@, a.pane)),
        ControlCommand::Pane(PaneCommand::Focus(a)) => Some(("pane"@, Some(a.id))),
        ControlCommand::Pane(PaneCommand::Split(a)) => Some(("pane"@, a.pane)),
        ControlCommand::Pane(PaneCommand::Close(a)) => Some(("pane"@, Some(a.id))),
        ControlCommand::Block(BlockCommand::List(a)) => Some(("pane"@, a.pane)),
        _ => None,
    }
}

/// The numeric value of the command's id (`None` inside when absent).
pub open spec fn command_id_value(cmd: ControlCommand) -> Option<u64> {
    match command_id(cmd) {
        Some((_, o)) => match opt_id_spec(o) {
            Some(v) => v,
            None => None,
        },
        None => None,
    }
}

pub open spec fn wire_mode(m: WaitForTextMode) -> WireMode {
    match m {
        WaitForTextMode::Screen => WireMode::Screen,
        WaitForTextMode::Blocks => WireMode::Blocks,
        WaitForTextMode::Both => WireMode::Both,
    }
}

pub open spec fn wire_since(s: WaitForTextSince) -> WireSince {
    match s {
        WaitForTextSince::All => WireSince::All,
        WaitForTextSince::Now => WireSince::Now,
    }
}

pub open spec fn wire_block_field(f: WaitForTextBlockField) -> WireBlockField {
    match f {
        WaitForTextBlockField::Output => WireBlockField::Output,
        WaitForTextBlockField::Command => WireBlockField::Command,
        WaitForTextBlockField::Both => WireBlockField::Both,
    }
}

pub open spec fn wire_scrollback(s: ShareScrollback) -> WireShareScrollback {
    match s {
        ShareScrollback::Nothing => WireShareScrollback::Nothing,
        ShareScrollback::All => WireShareScrollback::All,
    }
}

pub open spec fn wire_split(d: SplitDirection) -> SplitDir {
    match d {
        SplitDirection::Left => SplitDir::Left,
        SplitDirection::Right => SplitDir::Right,
        SplitDirection::Up => SplitDir::Up,
        SplitDirection::Down => SplitDir::Down,
    }
}

/// The request that a command sends, given that its id (if any) parsed to
/// `id`: each field is carried over, ids become numbers, command words are
/// joined with spaces, written text becomes its UTF-8 bytes, seconds become
/// milliseconds and the no-screen flag is inverted.
pub open spec fn request_for(cmd: ControlCommand, id: Option<u64>, req: Request) -> bool {
    match cmd {
        ControlCommand::Tab(TabCommand::List) => req is ListTabs,
        ControlCommand::Tab(TabCommand::New(a)) => req == Request::NewTab { config: a.config },
        ControlCommand::Tab(TabCommand::Close(_)) => req matches Request::CloseTab { tab } && id
            == Some(tab),
        ControlCommand::Tab(TabCommand::Focus(_)) => req matches Request::FocusTab { tab } && id
            == Some(tab),
        ControlCommand::Pane(PaneCommand::List(_)) => req matches Request::ListPanes { tab } && tab
            == id,
        ControlCommand::Pane(PaneCommand::Send(a)) => req matches Request::SendInput {
            pane,
            text,
            wait,
            timeout_ms,
        } && pane == id && text@ == join_words(views(a.command@)) && wait == a.wait && timeout_ms
            == (match a.timeout {
            Some(s) => Some(secs_to_ms_spec(s)),
            None => None,
        }),
        ControlCommand::Pane(PaneCommand::Write(a)) => req matches Request::WriteBytes {
            pane,
            bytes,
        } && pane == id && bytes@ == vstd::utf8::encode_utf8(a.text@),
        ControlCommand::Pane(PaneCommand::Keystroke(a)) => req == Request::Keystroke {
            pane: id,
            key: a.key,
        },
        ControlCommand::Pane(PaneCommand::Read(a)) => req == Request::ReadPane {
            pane: id,
            blocks: a.blocks,
        },
        ControlCommand::Pane(PaneCommand::Screen(_)) => req == Request::ReadScreen { pane: id },
        ControlCommand::Pane(PaneCommand::Snapshot(a)) => req == Request::SnapshotPane {
            pane: id,
            blocks: a.blocks,
            include_screen: !a.no_screen,
            max_output_bytes: a.max_output_bytes,
            json: a.json,
        },
        ControlCommand::Pane(PaneCommand::WaitForText(a)) => req == Request::WaitForText {
            pane: id,
            text: a.text,
            regex: a.regex,
            timeout_ms: secs_to_ms_spec(a.timeout),
            mode: wire_mode(a.mode),
            case_insensitive: a.case_insensitive,
            since: wire_since(a.since),
            blocks: a.blocks,
            block_field: wire_block_field(a.block_field),
            max_output_bytes: a.max_output_bytes,
            json: a.json,
        },
        ControlCommand::Pane(PaneCommand::Share(a)) => req == Request::SharePane {
            pane: id,
            scrollback: wire_scrollback(a.scrollback),
        },
        ControlCommand::Pane(PaneCommand::ShareLink(_)) => req == Request::SharePaneLink {
            pane: id,
        },
        ControlCommand::Pane(PaneCommand::Unshare(_)) => req == Request::UnsharePane { pane: id },
        ControlCommand::Pane(PaneCommand::Focus(_)) => req matches Request::FocusPane { pane }
            && id == Some(pane),
        ControlCommand::Pane(PaneCommand::Split(a)) => req == Request::SplitPane {
            pane: id,
            direction: wire_split(a.direction),
        },
        ControlCommand::Pane(PaneCommand::Close(_)) => req matches Request::ClosePane { pane }
            && id == Some(pane),
        ControlCommand::Block(BlockCommand::List(a)) => req == Request::ListBlocks {
            pane: id,
            limit: a.limit,
        },
        ControlCommand::Block(BlockCommand::Read(a)) => req == Request::ReadBlock { block: a.id },
    }
}

/// Builds the request a command sends. Fails exactly when the command's id
/// is not a number, with the message naming what the id was for.
pub fn build_request(cmd: ControlCommand) -> (r: Result<Request, RequestError>)
    ensures
        match r {
            Ok(req) => (command_id(cmd) matches Some((_, o)) ==> opt_id_spec(o) is Some)
                && request_for(cmd, command_id_value(cmd), req),
            Err(e) => command_id(cmd) matches Some((what, Some(s))) && opt_id_spec(Some(s)) is None
                && e.message@ == bad_id_message(what, s@),
        },
{
    let ghost c = cmd;
    proof {
        reveal_strlit("tab");
        reveal_strlit("pane");
    }
    let req = match cmd {
        ControlCommand::Tab(TabCommand::List) => Request::ListTabs,
        ControlCommand::Tab(TabCommand::New(args)) => Request::NewTab { config: args.config },
        ControlCommand::Tab(TabCommand::Close(a)) => Request::CloseTab {
            tab: parse_id(a.id.as_str(), "tab")?,
        },
        ControlCommand::Tab(TabCommand::Focus(a)) => Request::FocusTab {
            tab: parse_id(a.id.as_str(), "tab")?,
        },
        ControlCommand::Pane(PaneCommand::List(a)) => Request::ListPanes {
            tab: parse_opt_id(a.tab, "tab")?,
        },
        ControlCommand::Pane(PaneCommand::Send(a)) => {
            let pane = parse_opt_id(a.pane, "pane")?;
            Request::SendInput {
                pane,
                text: join_with_spaces(&a.command),
                wait: a.wait,
                timeout_ms: match a.timeout {
                    Some(secs) => Some(secs_to_ms(secs)),
                    None => None,
                },
            }
        },
        ControlCommand::Pane(PaneCommand::Write(a)) => {
            let pane = parse_opt_id(a.pane, "pane")?;
            Request::WriteBytes { pane, bytes: vstd::slice::slice_to_vec(a.text.as_str().as_bytes()) }
        },
        ControlCommand::Pane(PaneCommand::Keystroke(a)) => {
            let pane = parse_opt_id(a.pane, "pane")?;
            Request::Keystroke { pane, key: a.key }
        },
        ControlCommand::Pane(PaneCommand::Read(a)) => {
            let pane = parse_opt_id(a.pane, "pane")?;
            Request::ReadPane { pane, blocks: a.blocks }
        },
        ControlCommand::Pane(PaneCommand::Screen(a)) => Request::ReadScreen {
            pane: parse_opt_id(a.pane, "pane")?,
        },
        ControlCommand::Pane(PaneCommand::Snapshot(a)) => {
            let pane = parse_opt_id(a.pane, "pane")?;
            Request::SnapshotPane {
                pane,
                blocks: a.blocks,
                include_screen: !a.no_screen,
                max_output_bytes: a.max_output_bytes,
                json: a.json,
            }
        },
        ControlCommand::Pane(PaneCommand::WaitForText(a)) => {
            let pane = parse_opt_id(a.pane, "pane")?;
            Request::WaitForText {
                pane,
                text: a.text,
                regex: a.regex,
                timeout_ms: secs_to_ms(a.timeout),
                mode: match a.mode {
                    WaitForTextMode::Screen => WireMode::Screen,
                    WaitForTextMode::Blocks => WireMode::Blocks,
                    WaitForTextMode::Both => WireMode::Both,
                },
                case_insensitive: a.case_insensitive,
                since: match a.since {
                    WaitForTextSince::All => WireSince::All,
                    WaitForTextSince::Now => WireSince::Now,
                },
                blocks: a.blocks,
                block_field: match a.block_field {
                    WaitForTextBlockField::Output => WireBlockField::Output,
                    WaitForTextBlockField::Command => WireBlockField::Command,
                    WaitForTextBlockField::Both => WireBlockField::Both,
                },
                max_output_bytes: a.max_output_bytes,
                json: a.json,
            }
        },
        ControlCommand::Pane(PaneCommand::Share(a)) => {
            let pane = parse_opt_id(a.pane, "pane")?;
            Request::SharePane {
                pane,
                scrollback: match a.scrollback {
                    ShareScrollback::Nothing => WireShareScrollback::Nothing,
                    ShareScrollback::All => WireShareScrollback::All,
                },
            }
        },
        ControlCommand::Pane(PaneCommand::ShareLink(a)) => Request::SharePaneLink {
            pane: parse_opt_id(a.pane, "pane")?,
        },
        ControlCommand::Pane(PaneCommand::Unshare(a)) => Request::UnsharePane {
            pane: parse_opt_id(a.pane, "pane")?,
        },
        ControlCommand::Pane(PaneCommand::Focus(a)) => Request::FocusPane {
            pane: parse_id(a.id.as_str(), "pane")?,
        },
        ControlCommand::Pane(PaneCommand::Split(a)) => {
            let pane = parse_opt_id(a.pane, "pane")?;
            Request::SplitPane {
                pane,
                direction: match a.direction {
                    SplitDirection::Left => SplitDir::Left,
                    SplitDirection::Right => SplitDir::Right,
                    SplitDirection::Up => SplitDir::Up,
                    SplitDirection::Down => SplitDir::Down,
                },
            }
        },
        ControlCommand::Pane(PaneCommand::Close(a)) => Request::ClosePane {
            pane: parse_id(a.id.as_str(), "pane")?,
        },
        ControlCommand::Block(BlockCommand::List(a)) => {
            let pane = parse_opt_id(a.pane, "pane")?;
            Request::ListBlocks { pane, limit: a.limit }
        },
        ControlCommand::Block(BlockCommand::Read(a)) => Request::ReadBlock { block: a.id },
    };
    Ok(req)
}

/// A built request carries the user's choices over by name: the split
/// direction, the wait mode, the `since` point, the searched block field and
/// the shared scrollback are the wire values of the same name, and timeouts
/// in seconds become the same span in milliseconds (saturating).
pub proof fn lemma_request_carries_choices(cmd: ControlCommand, id: Option<u64>, req: Request)
    requires
        request_for(cmd, id, req),
    ensures
        cmd matches ControlCommand::Pane(PaneCommand::Split(a)) ==> {
            &&& req matches Request::SplitPane { direction, .. }
            &&& (a.direction == SplitDirection::Left) == (direction == SplitDir::Left)
            &&& (a.direction == SplitDirection::Right) == (direction == SplitDir::Right)
            &&& (a.direction == SplitDirection::Up) == (direction == SplitDir::Up)
            &&& (a.direction == SplitDirection::Down) == (direction == SplitDir::Down)
        },
        cmd matches ControlCommand::Pane(PaneCommand::Share(a)) ==> {
            &&& req matches Request::SharePane { scrollback, .. }
            &&& (a.scrollback == ShareScrollback::Nothing) == (scrollback
                == WireShareScrollback::Nothing)
            &&& (a.scrollback == ShareScrollback::All) == (scrollback == WireShareScrollback::All)
        },
        cmd matches ControlCommand::Pane(PaneCommand::WaitForText(a)) ==> {
            &&& req matches Request::WaitForText { mode, since, block_field, timeout_ms, .. }
            &&& (a.mode == WaitForTextMode::Screen) == (mode == WireMode::Screen)
            &&& (a.mode == WaitForTextMode::Blocks) == (mode == WireMode::Blocks)
            &&& (a.mode == WaitForTextMode::Both) == (mode == WireMode::Both)
            &&& (a.since == WaitForTextSince::All) == (since == WireSince::All)
            &&& (a.since == WaitForTextSince::Now) == (since == WireSince::Now)
            &&& (a.block_field == WaitForTextBlockField::Output) == (block_field
                == WireBlockField::Output)
            &&& (a.block_field == WaitForTextBlockField::Command) == (block_field
                == WireBlockField::Command)
            &&& (a.block_field == WaitForTextBlockField::Both) == (block_field
                == WireBlockField::Both)
            &&& a.timeout * 1000 <= u64::MAX ==> timeout_ms == a.timeout * 1000
            &&& a.timeout * 1000 > u64::MAX ==> timeout_ms == u64::MAX
        },
        cmd matches ControlCommand::Pane(PaneCommand::Send(a)) ==> {
            &&& req matches Request::SendInput { timeout_ms, wait, .. }
            &&& wait == a.wait
            &&& a.timeout is None ==> timeout_ms is None
            &&& a.timeout matches Some(sec) ==> {
                &&& timeout_ms is Some
                &&& sec * 1000 <= u64::MAX ==> timeout_ms->0 == sec * 1000
                &&& sec * 1000 > u64::MAX ==> timeout_ms->0 == u64::MAX
            }
        },
{
}

} // verus!
