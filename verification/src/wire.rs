//! Wire protocol shared between the in-app control server and the CLI
//! client: one request, one response, each sent as one length-prefixed JSON
//! frame (see `framing`).

use vstd::prelude::*;

verus! {

/// A request from the CLI to the running app.
#[derive(Debug)]
pub enum Request {
    Ping,
    ListTabs,
    ListPanes { tab: Option<u64> },
    SendInput { pane: Option<u64>, text: String, wait: bool, timeout_ms: Option<u64> },
    ReadPane { pane: Option<u64>, blocks: usize },
    /// Render a pane's current screen to text (including the alternate screen
    /// of full-screen apps).
    ReadScreen { pane: Option<u64> },
    /// Capture a structured pane snapshot.
    SnapshotPane {
        pane: Option<u64>,
        blocks: usize,
        include_screen: bool,
        max_output_bytes: usize,
        json: bool,
    },
    /// Wait for text or a regex to appear in a pane's screen or blocks.
    WaitForText {
        pane: Option<u64>,
        text: String,
        regex: bool,
        timeout_ms: u64,
        mode: WaitForTextMode,
        case_insensitive: bool,
        since: WaitForTextSince,
        blocks: usize,
        block_field: WaitForTextBlockField,
        max_output_bytes: usize,
        json: bool,
    },
    /// Start sharing a pane's session.
    SharePane { pane: Option<u64>, scrollback: ShareScrollback },
    /// Ask for the share link of a pane.
    SharePaneLink { pane: Option<u64> },
    /// Stop sharing a pane's session.
    UnsharePane { pane: Option<u64> },
    /// Open a new tab, from a saved tab config when `config` names one.
    NewTab { config: Option<String> },
    CloseTab { tab: u64 },
    FocusTab { tab: u64 },
    FocusPane { pane: u64 },
    SplitPane { pane: Option<u64>, direction: SplitDir },
    ClosePane { pane: u64 },
    ListBlocks { pane: Option<u64>, limit: usize },
    ReadBlock { block: String },
    /// Write raw bytes verbatim to a pane's PTY.
    WriteBytes { pane: Option<u64>, bytes: Vec<u8> },
    /// Send a named key (or a chord like "ctrl-c") to a pane's PTY.
    Keystroke { pane: Option<u64>, key: String },
}

#[derive(Debug, Clone, Copy, PartialEq, Eq, Structural)]
pub enum SplitDir {
    Left,
    Right,
    Up,
    Down,
}

#[derive(Debug, Clone, Copy, PartialEq, Eq, Structural)]
pub enum ShareScrollback {
    /// No prior scrollback (`none` on the wire).
    Nothing,
    All,
}

/// The app's answer to a request.
#[derive(Debug)]
pub enum Response {
    Pong,
    /// The request was carried out (`ok` on the wire).
    Success,
    Tabs { tabs: Vec<TabSummary> },
    Panes { panes: Vec<PaneSummary> },
    PaneOutput { pane: u64, blocks: Vec<BlockEntry> },
    /// Rendered screen text; `alt_screen` is true for a full-screen app.
    Screen { pane: u64, alt_screen: bool, text: String },
    PaneSnapshot { snapshot: PaneSnapshot, json: bool },
    WaitForTextMatched {
        pane: u64,
        elapsed_ms: u64,
        matched: TextMatch,
        snapshot: Option<PaneSnapshot>,
        json: bool,
    },
    WaitForTextTimedOut {
        pane: u64,
        timeout_ms: u64,
        elapsed_ms: u64,
        snapshot: Option<PaneSnapshot>,
        json: bool,
    },
    ShareStarted { pane: u64 },
    ShareLink { pane: u64, url: String },
    SharePending { pane: u64 },
    ShareStopped { pane: u64 },
    Blocks { blocks: Vec<BlockEntry> },
    Block { block: BlockEntry },
    SendTimedOut { pane: u64, timeout_ms: u64, block: BlockEntry },
    Error { message: String },
}

#[derive(Debug)]
pub struct TabSummary {
    pub id: u64,
    pub index: usize,
    pub title: Option<String>,
    pub active: bool,
    pub pane_ids: Vec<u64>,
}

#[derive(Debug)]
pub struct PaneSummary {
    pub id: u64,
    pub tab_id: u64,
    pub tab_index: usize,
    pub title: Option<String>,
    pub cwd: Option<String>,
    pub focused: bool,
}

#[derive(Debug)]
pub struct BlockEntry {
    pub id: String,
    pub pane_id: u64,
    pub command: Option<String>,
    pub output: String,
    pub output_truncated: bool,
    pub exit_code: Option<i32>,
    pub pwd: Option<String>,
    pub started_at: Option<String>,
    pub completed_at: Option<String>,
}

/// Where `wait-for-text` searches.
#[derive(Debug, Clone, Copy, PartialEq, Eq, Structural)]
pub enum WaitForTextMode {
    Screen,
    Blocks,
    Both,
}

impl WaitForTextMode {
    pub open spec fn searches_screen(self) -> bool {
        self is Screen || self is Both
    }

    pub open spec fn searches_blocks(self) -> bool {
        self is Blocks || self is Both
    }

    pub fn includes_screen(self) -> (b: bool)
        ensures
            b == self.searches_screen(),
    {
        match self {
            WaitForTextMode::Screen | WaitForTextMode::Both => true,
            WaitForTextMode::Blocks => false,
        }
    }

    pub fn includes_blocks(self) -> (b: bool)
        ensures
            b == self.searches_blocks(),
    {
        match self {
            WaitForTextMode::Blocks | WaitForTextMode::Both => true,
            WaitForTextMode::Screen => false,
        }
    }
}

/// Whether `wait-for-text` also matches text present when the wait began.
#[derive(Debug, Clone, Copy, PartialEq, Eq, Structural)]
pub enum WaitForTextSince {
    All,
    Now,
}

/// Which part of a block `wait-for-text` searches.
#[derive(Debug, Clone, Copy, PartialEq, Eq, Structural)]
pub enum WaitForTextBlockField {
    Output,
    Command,
    Both,
}

#[derive(Debug)]
pub struct PaneSnapshot {
    pub schema_version: u32,
    pub captured_at: String,
    pub pane: PaneSnapshotPane,
    pub screen: Option<PaneScreenSnapshot>,
    pub blocks: Vec<BlockEntry>,
}

#[derive(Debug)]
pub struct PaneSnapshotPane {
    pub id: u64,
    pub tab_id: u64,
    pub tab_index: usize,
    pub title: Option<String>,
    pub cwd: Option<String>,
    pub focused: bool,
}

#[derive(Debug)]
pub struct PaneScreenSnapshot {
    pub alt_screen: bool,
    pub text: String,
    pub text_truncated: bool,
}

#[derive(Debug, Clone, Copy, PartialEq, Eq, Structural)]
pub enum TextMatchSource {
    Screen,
    Block,
}

#[derive(Debug)]
pub struct TextMatch {
    pub source: TextMatchSource,
    pub pane_id: u64,
    pub block_id: Option<String>,
    pub text: String,
    pub line: Option<String>,
}

} // verus!
