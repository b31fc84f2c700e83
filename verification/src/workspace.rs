//! What the control server reads of the running app, held as plain values:
//! the active workspace with its tabs, each tab's terminal panes, and each
//! pane's screen and blocks. The request handlers work on this state and say
//! what to change in the app as an action.

use vstd::prelude::*;
use crate::text::{chars_eq_str, chars_of, dec, push_decimal, push_str, trim, trim_bounds};
use crate::wait::{error_message, string_of};
use crate::snapshot::{block_truncated, truncate_block, truncate_spec, truncate_text};
use crate::wire::{
    BlockEntry, PaneScreenSnapshot, PaneSnapshot, PaneSnapshotPane, PaneSummary, Response,
    TabSummary,
};

verus! {

/// One block of a pane's block list.
pub struct BlockRecord {
    pub id: String,
    /// The text of the block's prompt-and-command area.
    pub prompt_and_command: String,
    /// The command alone.
    pub command: String,
    pub output: String,
    /// Whether the command has finished.
    pub done: bool,
    pub exit_code: i32,
    pub pwd: Option<String>,
    pub started_at: Option<String>,
    pub completed_at: Option<String>,
}

/// Whether a pane takes part in a shared session.
#[derive(Debug, Clone, Copy, PartialEq, Eq, Structural)]
pub enum ShareRole {
    NotShared,
    /// The pane shares its session.
    Sharer,
    /// The pane views someone else's session.
    Viewer,
}

/// The block a pane is currently editing or running.
pub struct ActiveBlock {
    /// The command text of the block.
    pub command: String,
    pub executing: bool,
    pub started: bool,
    pub done: bool,
}

/// One terminal pane of a tab.
pub struct PaneRecord {
    /// The wire id of the pane.
    pub id: u64,
    /// Closed, but kept so the close can be undone; not listed.
    pub hidden: bool,
    pub cwd: Option<String>,
    pub alt_screen: bool,
    pub screen_text: String,
    pub blocks: Vec<BlockRecord>,
    pub share_role: ShareRole,
    /// The join link of the pane's shared session, once the session exists.
    pub share_link: Option<String>,
    /// Whether the shell has finished bootstrapping.
    pub bootstrapped: bool,
    pub active_block: ActiveBlock,
}

/// One tab: its pane group's id and its terminal panes.
pub struct TabRecord {
    pub id: u64,
    pub panes: Vec<PaneRecord>,
    /// The wire id of the focused pane, when the focused pane is a terminal.
    pub focused_pane: Option<u64>,
}

/// The workspace that control requests act on.
pub struct WorkspaceRecord {
    pub tabs: Vec<TabRecord>,
    pub active_tab: usize,
}

/// The state the handlers read: the active workspace, if there is one, and
/// the names of the saved tab configs.
pub struct AppState {
    pub workspace: Option<WorkspaceRecord>,
    pub tab_configs: Vec<String>,
}

/// The wire form of a block: the command only when it is not blank, the
/// exit code only once the block is done.
pub open spec fn block_entry_spec(b: BlockRecord, pane: u64) -> BlockEntry {
    BlockEntry {
        id: b.id,
        pane_id: pane,
        command: if trim(b.prompt_and_command@).len() == 0 {
            None
        } else {
            Some(b.prompt_and_command)
        },
        output: b.output,
        output_truncated: false,
        exit_code: if b.done {
            Some(b.exit_code)
        } else {
            None
        },
        pwd: b.pwd,
        started_at: b.started_at,
        completed_at: b.completed_at,
    }
}

/// The wire form of block `b` of pane `pane`.
pub fn block_to_entry(b: &BlockRecord, pane: u64) -> (e: BlockEntry)
    ensures
        e == block_entry_spec(*b, pane),
{
    let cv = chars_of(b.prompt_and_command.as_str());
    let (lo, hi) = trim_bounds(&cv, 0, cv.len());
    proof {
        assert(cv@.subrange(0, cv@.len() as int) =~= cv@);
    }
    let command = if lo == hi {
        None
    } else {
        Some(b.prompt_and_command.clone())
    };
    BlockEntry {
        id: b.id.clone(),
        pane_id: pane,
        command,
        output: b.output.clone(),
        output_truncated: false,
        exit_code: if b.done {
            Some(b.exit_code)
        } else {
            None
        },
        pwd: b.pwd.clone(),
        started_at: b.started_at.clone(),
        completed_at: b.completed_at.clone(),
    }
}

/// The wire forms of the last `n` blocks (all of them when there are fewer).
pub fn last_blocks(blocks: &Vec<BlockRecord>, pane: u64, n: usize) -> (r: Vec<BlockEntry>)
    ensures
        r@.len() == (if n < blocks@.len() {
            n as int
        } else {
            blocks@.len() as int
        }),
        forall|i: int|
            0 <= i < r@.len() ==> r@[i] == block_entry_spec(
                #[trigger] blocks@[blocks@.len() - r@.len() + i],
                pane,
            ),
{
    let take = if n < blocks.len() {
        n
    } else {
        blocks.len()
    };
    let start = blocks.len() - take;
    let mut r: Vec<BlockEntry> = Vec::new();
    let mut i = start;
    while i < blocks.len()
        invariant
            start <= i <= blocks@.len(),
            start == blocks@.len() - take,
            r@.len() == i - start,
            forall|j: int|
                0 <= j < r@.len() ==> r@[j] == block_entry_spec(#[trigger] blocks@[start + j], pane),
        decreases blocks.len() - i,
    {
        let e = block_to_entry(&blocks[i], pane);
        r.push(e);
        i += 1;
    }
    r
}

/// Index of the first pane of `ps`, from `p` on, with wire id `id`.
pub open spec fn pane_index_from(ps: Seq<PaneRecord>, id: u64, p: int) -> Option<int>
    decreases ps.len() - p,
{
    if p < 0 || p >= ps.len() {
        None
    } else if ps[p].id == id {
        Some(p)
    } else {
        pane_index_from(ps, id, p + 1)
    }
}

/// Position (tab, pane) of the first pane with wire id `id`, from tab `t`
/// on; hidden panes count.
pub open spec fn locate_from(tabs: Seq<TabRecord>, id: u64, t: int) -> Option<(int, int)>
    decreases tabs.len() - t,
{
    if t < 0 || t >= tabs.len() {
        None
    } else {
        match pane_index_from(tabs[t].panes@, id, 0) {
            Some(p) => Some((t, p)),
            None => locate_from(tabs, id, t + 1),
        }
    }
}

/// Position of pane `id` in the workspace.
pub open spec fn locate(ws: WorkspaceRecord, id: u64) -> Option<(int, int)> {
    locate_from(ws.tabs@, id, 0)
}

/// A located position lies inside the workspace and holds the pane.
pub proof fn lemma_locate_from(tabs: Seq<TabRecord>, id: u64, t: int)
    ensures
        locate_from(tabs, id, t) matches Some((a, b)) ==> 0 <= a < tabs.len() && 0 <= b
            < tabs[a].panes@.len() && tabs[a].panes@[b].id == id,
    decreases tabs.len() - t,
{
    if 0 <= t < tabs.len() {
        lemma_pane_index_from(tabs[t].panes@, id, 0);
        lemma_locate_from(tabs, id, t + 1);
    }
}

/// A found index lies inside the list and holds the pane.
pub proof fn lemma_pane_index_from(ps: Seq<PaneRecord>, id: u64, p: int)
    ensures
        pane_index_from(ps, id, p) matches Some(k) ==> 0 <= k < ps.len() && ps[k].id == id,
    decreases ps.len() - p,
{
    if 0 <= p < ps.len() && ps[p].id != id {
        lemma_pane_index_from(ps, id, p + 1);
    }
}

fn pane_index(ps: &Vec<PaneRecord>, id: u64) -> (r: Option<usize>)
    ensures
        match r {
            Some(k) => pane_index_from(ps@, id, 0) == Some(k as int),
            None => pane_index_from(ps@, id, 0) is None,
        },
{
    let mut p: usize = 0;
    while p < ps.len()
        invariant
            p <= ps@.len(),
            pane_index_from(ps@, id, 0) == pane_index_from(ps@, id, p as int),
        decreases ps.len() - p,
    {
        if ps[p].id == id {
            return Some(p);
        }
        p += 1;
    }
    None
}

/// Position (tab, pane) of pane `id` in the workspace (see `locate`).
pub fn find_pane(ws: &WorkspaceRecord, id: u64) -> (r: Option<(usize, usize)>)
    ensures
        match r {
            Some((t, p)) => locate(*ws, id) == Some((t as int, p as int)) && t < ws.tabs@.len()
                && p < ws.tabs@[t as int].panes@.len() && ws.tabs@[t as int].panes@[p as int].id
                == id,
            None => locate(*ws, id) is None,
        },
{
    let mut t: usize = 0;
    while t < ws.tabs.len()
        invariant
            t <= ws.tabs@.len(),
            locate(*ws, id) == locate_from(ws.tabs@, id, t as int),
        decreases ws.tabs.len() - t,
    {
        match pane_index(&ws.tabs[t].panes, id) {
            Some(p) => {
                proof {
                    lemma_pane_index_from(ws.tabs@[t as int].panes@, id, 0);
                }
                return Some((t, p));
            },
            None => {},
        }
        t += 1;
    }
    None
}

/// The first pane of the first tab, if that tab has one.
pub open spec fn first_listed_pane(ws: WorkspaceRecord) -> Option<u64> {
    if ws.tabs@.len() > 0 && ws.tabs@[0].panes@.len() > 0 {
        Some(ws.tabs@[0].panes@[0].id)
    } else {
        None
    }
}

/// The pane a request without `--pane` acts on: the focused pane of the
/// active tab, else that tab's first pane, else the first pane of the first
/// tab.
pub open spec fn default_pane(ws: WorkspaceRecord) -> Option<u64> {
    if ws.active_tab < ws.tabs@.len() {
        let tab = ws.tabs@[ws.active_tab as int];
        if tab.focused_pane is Some {
            tab.focused_pane
        } else if tab.panes@.len() > 0 {
            Some(tab.panes@[0].id)
        } else {
            first_listed_pane(ws)
        }
    } else {
        first_listed_pane(ws)
    }
}

/// The default pane (see `default_pane`).
pub fn first_pane_id(ws: &WorkspaceRecord) -> (r: Option<u64>)
    ensures
        r == default_pane(*ws),
{
    if ws.active_tab < ws.tabs.len() {
        let tab = &ws.tabs[ws.active_tab];
        if let Some(f) = tab.focused_pane {
            return Some(f);
        }
        if tab.panes.len() > 0 {
            return Some(tab.panes[0].id);
        }
    }
    if ws.tabs.len() > 0 && ws.tabs[0].panes.len() > 0 {
        Some(ws.tabs[0].panes[0].id)
    } else {
        None
    }
}

/// The message when no pane is given and none is focused.
pub open spec fn no_pane_message() -> Seq<char> {
    "no pane specified and no focused pane found"@
}

/// The message for a pane id that names no pane.
pub open spec fn pane_not_found_message(id: u64) -> Seq<char> {
    "pane "@ + dec(id as nat) + " not found"@
}

/// Where a request's pane lies: the pane it names, or the default pane; an
/// error message when there is neither or the pane does not exist.
pub open spec fn resolve_spec(state: AppState, pane: Option<u64>) -> Result<
    (u64, (int, int)),
    Seq<char>,
> {
    let id = match pane {
        Some(p) => Some(p),
        None => match state.workspace {
            Some(ws) => default_pane(ws),
            None => None,
        },
    };
    match id {
        None => Err(no_pane_message()),
        Some(i) => match state.workspace {
            Some(ws) => match locate(ws, i) {
                Some(loc) => Ok((i, loc)),
                None => Err(pane_not_found_message(i)),
            },
            None => Err(pane_not_found_message(i)),
        },
    }
}

/// An error response with the given text.
pub fn error_response(message: String) -> (r: Response)
    ensures
        r is Error,
        error_message(r) == message@,
{
    Response::Error { message }
}

/// "pane {id} not found".
pub fn pane_not_found(id: u64) -> (r: Response)
    ensures
        r is Error,
        error_message(r) == pane_not_found_message(id),
{
    let mut m = string_of("pane ");
    push_decimal(&mut m, id);
    push_str(&mut m, " not found");
    error_response(m)
}

/// The pane a request acts on (see `resolve_spec`), as its id and position.
pub fn resolve_pane(state: &AppState, pane: Option<u64>) -> (r: Result<(u64, usize, usize), Response>)
    ensures
        match r {
            Ok((id, t, p)) => {
                &&& resolve_spec(*state, pane) == Ok::<(u64, (int, int)), Seq<char>>(
                    (id, (t as int, p as int)),
                )
                &&& state.workspace is Some
                &&& t < state.workspace->0.tabs@.len()
                &&& p < state.workspace->0.tabs@[t as int].panes@.len()
                &&& state.workspace->0.tabs@[t as int].panes@[p as int].id == id
            },
            Err(e) => e is Error && resolve_spec(*state, pane) == Err::<(u64, (int, int)), Seq<char>>(
                error_message(e),
            ),
        },
{
    let id = match pane {
        Some(p) => Some(p),
        None => match &state.workspace {
            Some(ws) => first_pane_id(ws),
            None => None,
        },
    };
    let id = match id {
        Some(i) => i,
        None => {
            return Err(error_response(string_of("no pane specified and no focused pane found")));
        },
    };
    match &state.workspace {
        Some(ws) => match find_pane(ws, id) {
            Some((t, p)) => Ok((id, t, p)),
            None => Err(pane_not_found(id)),
        },
        None => Err(pane_not_found(id)),
    }
}


/// Wire ids of the panes of `ps` that are not hidden, in order.
pub open spec fn visible_ids(ps: Seq<PaneRecord>) -> Seq<u64>
    decreases ps.len(),
{
    if ps.len() == 0 {
        seq![]
    } else if ps.last().hidden {
        visible_ids(ps.drop_last())
    } else {
        visible_ids(ps.drop_last()).push(ps.last().id)
    }
}

/// `s` summarises tab `t` of the workspace: its id and index, no title,
/// whether it is the active tab, and its visible panes.
pub open spec fn is_tab_summary(ws: WorkspaceRecord, t: int, s: TabSummary) -> bool {
    &&& s.id == ws.tabs@[t].id
    &&& s.index == t
    &&& s.title is None
    &&& s.active == (t == ws.active_tab)
    &&& s.pane_ids@ == visible_ids(ws.tabs@[t].panes@)
}

fn visible_pane_ids(ps: &Vec<PaneRecord>) -> (r: Vec<u64>)
    ensures
        r@ == visible_ids(ps@),
{
    let mut r: Vec<u64> = Vec::new();
    let mut i: usize = 0;
    while i < ps.len()
        invariant
            i <= ps@.len(),
            r@ == visible_ids(ps@.take(i as int)),
        decreases ps.len() - i,
    {
        proof {
            let t = ps@.take(i + 1);
            assert(t.drop_last() =~= ps@.take(i as int));
            assert(t.last() == ps@[i as int]);
        }
        if !ps[i].hidden {
            r.push(ps[i].id);
        }
        i += 1;
    }
    proof {
        assert(ps@.take(ps@.len() as int) =~= ps@);
    }
    r
}

/// The contract of `list_tabs`.
pub open spec fn list_tabs_post(state: AppState, r: Response) -> bool {
    match r {
        Response::Tabs { tabs } => match state.workspace {
            Some(ws) => tabs@.len() == ws.tabs@.len() && forall|t: int|
                0 <= t < tabs@.len() ==> is_tab_summary(ws, t, #[trigger] tabs@[t]),
            None => tabs@.len() == 0,
        },
        _ => false,
    }
}

/// `list-tabs`: one summary per tab of the active workspace, in order; no
/// tabs when there is no workspace.
pub fn list_tabs(state: &AppState) -> (r: Response)
    ensures
        list_tabs_post(*state, r),
{
    let ws = match &state.workspace {
        Some(ws) => ws,
        None => {
            return Response::Tabs { tabs: Vec::new() };
        },
    };
    let mut tabs: Vec<TabSummary> = Vec::new();
    let mut t: usize = 0;
    while t < ws.tabs.len()
        invariant
            t <= ws.tabs@.len(),
            tabs@.len() == t,
            forall|j: int| 0 <= j < t ==> is_tab_summary(*ws, j, #[trigger] tabs@[j]),
        decreases ws.tabs.len() - t,
    {
        let tab = &ws.tabs[t];
        let pane_ids = visible_pane_ids(&tab.panes);
        tabs.push(
            TabSummary {
                id: tab.id,
                index: t,
                title: None,
                active: t == ws.active_tab,
                pane_ids,
            },
        );
        t += 1;
    }
    Response::Tabs { tabs }
}

/// The visible panes of `ps`, each with its tab index `t`.
pub open spec fn visible_in_tab(ps: Seq<PaneRecord>, t: int) -> Seq<(int, PaneRecord)>
    decreases ps.len(),
{
    if ps.len() == 0 {
        seq![]
    } else if ps.last().hidden {
        visible_in_tab(ps.drop_last(), t)
    } else {
        visible_in_tab(ps.drop_last(), t).push((t, ps.last()))
    }
}

/// Whether tab `t` passes a `--tab` filter, which may name its id or index.
pub open spec fn tab_selected(filter: Option<u64>, tab: TabRecord, t: int) -> bool {
    match filter {
        Some(w) => w == tab.id || w == t,
        None => true,
    }
}

/// The visible panes of the first `t` tabs that pass the filter, in order.
pub open spec fn listed_panes(ws: WorkspaceRecord, filter: Option<u64>, t: int) -> Seq<
    (int, PaneRecord),
>
    decreases t,
{
    if t <= 0 || t > ws.tabs@.len() {
        seq![]
    } else if tab_selected(filter, ws.tabs@[t - 1], t - 1) {
        listed_panes(ws, filter, t - 1) + visible_in_tab(ws.tabs@[t - 1].panes@, t - 1)
    } else {
        listed_panes(ws, filter, t - 1)
    }
}

/// `s` summarises pane `p` of tab `t`: ids, no title, the pane's directory,
/// and whether it is the focused pane of the active tab.
pub open spec fn is_pane_summary(ws: WorkspaceRecord, t: int, p: PaneRecord, s: PaneSummary) -> bool {
    &&& s.id == p.id
    &&& s.tab_id == ws.tabs@[t].id
    &&& s.tab_index == t
    &&& s.title is None
    &&& s.cwd == p.cwd
    &&& s.focused == (t == ws.active_tab && ws.tabs@[t].focused_pane == Some(p.id))
}

/// The contract of `list_panes`.
pub open spec fn list_panes_post(state: AppState, filter_tab: Option<u64>, r: Response) -> bool {
    match r {
        Response::Panes { panes } => match state.workspace {
            Some(ws) => {
                let l = listed_panes(ws, filter_tab, ws.tabs@.len() as int);
                &&& panes@.len() == l.len()
                &&& forall|i: int|
                    0 <= i < l.len() ==> is_pane_summary(ws, l[i].0, l[i].1, #[trigger] panes@[i])
            },
            None => panes@.len() == 0,
        },
        _ => false,
    }
}

/// `list-panes`: a summary of every visible pane of the tabs that pass the
/// filter, tab by tab; none when there is no workspace.
pub fn list_panes(state: &AppState, filter_tab: Option<u64>) -> (r: Response)
    ensures
        list_panes_post(*state, filter_tab, r),
{
    let ws = match &state.workspace {
        Some(ws) => ws,
        None => {
            return Response::Panes { panes: Vec::new() };
        },
    };
    let mut panes: Vec<PaneSummary> = Vec::new();
    let mut t: usize = 0;
    while t < ws.tabs.len()
        invariant
            t <= ws.tabs@.len(),
            panes@.len() == listed_panes(*ws, filter_tab, t as int).len(),
            forall|i: int|
                0 <= i < panes@.len() ==> is_pane_summary(
                    *ws,
                    listed_panes(*ws, filter_tab, t as int)[i].0,
                    listed_panes(*ws, filter_tab, t as int)[i].1,
                    #[trigger] panes@[i],
                ),
        decreases ws.tabs.len() - t,
    {
        let tab = &ws.tabs[t];
        let selected = match filter_tab {
            Some(w) => w == tab.id || w == t as u64,
            None => true,
        };
        if selected {
            let ghost before = listed_panes(*ws, filter_tab, t as int);
            let mut p: usize = 0;
            while p < tab.panes.len()
                invariant
                    t < ws.tabs@.len(),
                    *tab == ws.tabs@[t as int],
                    p <= tab.panes@.len(),
                    panes@.len() == before.len() + visible_in_tab(
                        tab.panes@.take(p as int),
                        t as int,
                    ).len(),
                    forall|i: int|
                        0 <= i < panes@.len() ==> is_pane_summary(
                            *ws,
                            (before + visible_in_tab(tab.panes@.take(p as int), t as int))[i].0,
                            (before + visible_in_tab(tab.panes@.take(p as int), t as int))[i].1,
                            #[trigger] panes@[i],
                        ),
                decreases tab.panes.len() - p,
            {
                let ghost prev = before + visible_in_tab(tab.panes@.take(p as int), t as int);
                proof {
                    let q = tab.panes@.take(p + 1);
                    assert(q.drop_last() =~= tab.panes@.take(p as int));
                    assert(q.last() == tab.panes@[p as int]);
                }
                let pane = &tab.panes[p];
                if !pane.hidden {
                    let focused = t == ws.active_tab && match tab.focused_pane {
                        Some(f) => f == pane.id,
                        None => false,
                    };
                    panes.push(
                        PaneSummary {
                            id: pane.id,
                            tab_id: tab.id,
                            tab_index: t,
                            title: None,
                            cwd: pane.cwd.clone(),
                            focused,
                        },
                    );
                    proof {
                        let next = before + visible_in_tab(tab.panes@.take(p + 1), t as int);
                        assert(next =~= prev.push((t as int, *pane)));
                    }
                } else {
                    proof {
                        let next = before + visible_in_tab(tab.panes@.take(p + 1), t as int);
                        assert(next =~= prev);
                    }
                }
                p += 1;
            }
            proof {
                assert(tab.panes@.take(tab.panes@.len() as int) =~= tab.panes@);
            }
        }
        t += 1;
    }
    Response::Panes { panes }
}

/// Index of the first visible pane of `ps`, from `p` on, with wire id `id`.
pub open spec fn visible_index_from(ps: Seq<PaneRecord>, id: u64, p: int) -> Option<int>
    decreases ps.len() - p,
{
    if p < 0 || p >= ps.len() {
        None
    } else if ps[p].id == id && !ps[p].hidden {
        Some(p)
    } else {
        visible_index_from(ps, id, p + 1)
    }
}

/// Position of the first visible pane with wire id `id`, from tab `t` on.
pub open spec fn locate_visible_from(tabs: Seq<TabRecord>, id: u64, t: int) -> Option<(int, int)>
    decreases tabs.len() - t,
{
    if t < 0 || t >= tabs.len() {
        None
    } else {
        match visible_index_from(tabs[t].panes@, id, 0) {
            Some(p) => Some((t, p)),
            None => locate_visible_from(tabs, id, t + 1),
        }
    }
}

/// `s` describes pane `p` of tab `t` in a snapshot.
pub open spec fn is_snapshot_pane(ws: WorkspaceRecord, t: int, p: PaneRecord, s: PaneSnapshotPane) -> bool {
    &&& s.id == p.id
    &&& s.tab_id == ws.tabs@[t].id
    &&& s.tab_index == t
    &&& s.title is None
    &&& s.cwd == p.cwd
    &&& s.focused == (t == ws.active_tab && ws.tabs@[t].focused_pane == Some(p.id))
}

/// The snapshot description of the first visible pane with wire id `id`.
pub fn pane_snapshot_summary(ws: &WorkspaceRecord, id: u64) -> (r: Option<PaneSnapshotPane>)
    ensures
        match locate_visible_from(ws.tabs@, id, 0) {
            Some((t, p)) => r matches Some(s) && is_snapshot_pane(
                *ws,
                t,
                ws.tabs@[t].panes@[p],
                s,
            ),
            None => r is None,
        },
{
    let mut t: usize = 0;
    while t < ws.tabs.len()
        invariant
            t <= ws.tabs@.len(),
            locate_visible_from(ws.tabs@, id, 0) == locate_visible_from(ws.tabs@, id, t as int),
        decreases ws.tabs.len() - t,
    {
        let tab = &ws.tabs[t];
        let mut p: usize = 0;
        while p < tab.panes.len()
            invariant
                t < ws.tabs@.len(),
                *tab == ws.tabs@[t as int],
                p <= tab.panes@.len(),
                visible_index_from(tab.panes@, id, 0) == visible_index_from(tab.panes@, id, p as int),
                locate_visible_from(ws.tabs@, id, 0) == locate_visible_from(ws.tabs@, id, t as int),
            decreases tab.panes.len() - p,
        {
            let pane = &tab.panes[p];
            if pane.id == id && !pane.hidden {
                proof {
                    assert(visible_index_from(tab.panes@, id, p as int) == Some(p as int));
                    assert(locate_visible_from(ws.tabs@, id, t as int) == Some(
                        (t as int, p as int),
                    ));
                }
                let focused = t == ws.active_tab && match tab.focused_pane {
                    Some(f) => f == id,
                    None => false,
                };
                return Some(
                    PaneSnapshotPane {
                        id,
                        tab_id: tab.id,
                        tab_index: t,
                        title: None,
                        cwd: pane.cwd.clone(),
                        focused,
                    },
                );
            }
            p += 1;
        }
        t += 1;
    }
    None
}

/// Version of the snapshot layout.
pub const SNAPSHOT_SCHEMA_VERSION: u32 = 1;

/// The number of blocks a request for the last `n` of `len` blocks gets.
pub open spec fn taken(n: usize, len: nat) -> int {
    if n < len {
        n as int
    } else {
        len as int
    }
}

/// `s` is the snapshot of pane record `rec` (wire id `id`) of the workspace:
/// the pane's description (or, for a pane not listed, a bare one), the
/// truncated screen when asked for, and the last `n` blocks truncated.
pub open spec fn is_pane_snapshot(
    ws: WorkspaceRecord,
    id: u64,
    rec: PaneRecord,
    n: usize,
    include_screen: bool,
    max: nat,
    captured_at: String,
    s: PaneSnapshot,
) -> bool {
    &&& s.schema_version == SNAPSHOT_SCHEMA_VERSION
    &&& s.captured_at == captured_at
    &&& match locate_visible_from(ws.tabs@, id, 0) {
        Some((t, p)) => is_snapshot_pane(ws, t, ws.tabs@[t].panes@[p], s.pane),
        None => s.pane == PaneSnapshotPane {
            id,
            tab_id: 0,
            tab_index: 0,
            title: None,
            cwd: rec.cwd,
            focused: false,
        },
    }
    &&& (s.screen is Some <==> include_screen)
    &&& include_screen ==> ({
        let sc = s.screen->0;
        &&& sc.alt_screen == rec.alt_screen
        &&& sc.text@ == truncate_spec(rec.screen_text@, max).0
        &&& sc.text_truncated == truncate_spec(rec.screen_text@, max).1
    })
    &&& s.blocks@.len() == taken(n, rec.blocks@.len())
    &&& forall|i: int|
        0 <= i < s.blocks@.len() ==> block_truncated(
            block_entry_spec(#[trigger] rec.blocks@[rec.blocks@.len() - s.blocks@.len() + i], id),
            s.blocks@[i],
            max,
        )
}

/// `snapshot-pane`: the snapshot of the request's pane (see
/// `is_pane_snapshot`), taken at `captured_at`; the error of an unresolved
/// pane otherwise.
pub fn collect_pane_snapshot(
    state: &AppState,
    pane: Option<u64>,
    blocks: usize,
    include_screen: bool,
    max_output_bytes: usize,
    captured_at: String,
) -> (r: Result<PaneSnapshot, Response>)
    ensures
        match r {
            Ok(s) => match resolve_spec(*state, pane) {
                Ok((id, (t, p))) => is_pane_snapshot(
                    state.workspace->0,
                    id,
                    state.workspace->0.tabs@[t].panes@[p],
                    blocks,
                    include_screen,
                    max_output_bytes as nat,
                    captured_at,
                    s,
                ),
                Err(_) => false,
            },
            Err(e) => e is Error && resolve_spec(*state, pane) == Err::<(u64, (int, int)), Seq<char>>(
                error_message(e),
            ),
        },
{
    let (id, t, p) = match resolve_pane(state, pane) {
        Ok(found) => found,
        Err(e) => {
            return Err(e);
        },
    };
    let ws = match &state.workspace {
        Some(ws) => ws,
        None => {
            return Err(pane_not_found(id));
        },
    };
    let rec = &ws.tabs[t].panes[p];
    let summary = match pane_snapshot_summary(ws, id) {
        Some(s) => s,
        None => PaneSnapshotPane {
            id,
            tab_id: 0,
            tab_index: 0,
            title: None,
            cwd: rec.cwd.clone(),
            focused: false,
        },
    };
    let screen = if include_screen {
        let (text, text_truncated) = truncate_text(rec.screen_text.clone(), max_output_bytes);
        Some(PaneScreenSnapshot { alt_screen: rec.alt_screen, text, text_truncated })
    } else {
        None
    };
    let entries = last_blocks(&rec.blocks, id, blocks);
    let ghost es = entries@;
    let mut out: Vec<BlockEntry> = Vec::new();
    for e in it: entries.into_iter()
        invariant
            it.seq() == es,
            out@.len() == it.index(),
            forall|j: int|
                0 <= j < out@.len() ==> block_truncated(
                    #[trigger] es[j],
                    out@[j],
                    max_output_bytes as nat,
                ),
    {
        out.push(truncate_block(e, max_output_bytes));
    }
    Ok(
        PaneSnapshot {
            schema_version: SNAPSHOT_SCHEMA_VERSION,
            captured_at,
            pane: summary,
            screen,
            blocks: out,
        },
    )
}

/// The pane record at a resolved position.
pub open spec fn record_at(state: AppState, t: int, p: int) -> PaneRecord {
    state.workspace->0.tabs@[t].panes@[p]
}

/// `v` holds the wire forms of the last `n` blocks of `rec` (pane `id`).
pub open spec fn last_entries(rec: PaneRecord, id: u64, n: usize, v: Seq<BlockEntry>) -> bool {
    &&& v.len() == taken(n, rec.blocks@.len())
    &&& forall|i: int|
        0 <= i < v.len() ==> v[i] == block_entry_spec(
            #[trigger] rec.blocks@[rec.blocks@.len() - v.len() + i],
            id,
        )
}

/// `r` is the error of an unresolved pane, or what `ok` says of the
/// resolved pane.
pub open spec fn on_resolved(state: AppState, pane: Option<u64>, r: Response, ok: spec_fn(u64, PaneRecord) -> bool) -> bool {
    match resolve_spec(state, pane) {
        Ok((id, (t, p))) => ok(id, record_at(state, t, p)),
        Err(m) => r is Error && error_message(r) == m,
    }
}

/// The contract of `read_pane`.
pub open spec fn read_pane_post(state: AppState, pane: Option<u64>, n: usize, r: Response) -> bool {
    on_resolved(
        state,
        pane,
        r,
        |id: u64, rec: PaneRecord|
            r matches Response::PaneOutput { pane: x, blocks } && x == id && last_entries(
                rec,
                id,
                n,
                blocks@,
            ),
    )
}

/// `read-pane`: the last `blocks` blocks of the request's pane.
pub fn read_pane(state: &AppState, pane: Option<u64>, blocks: usize) -> (r: Response)
    ensures
        read_pane_post(*state, pane, blocks, r),
{
    match resolve_pane(state, pane) {
        Ok((id, t, p)) => {
            let ws = state.workspace.as_ref().unwrap();
            let entries = last_blocks(&ws.tabs[t].panes[p].blocks, id, blocks);
            Response::PaneOutput { pane: id, blocks: entries }
        },
        Err(e) => e,
    }
}

/// The contract of `list_blocks`.
pub open spec fn list_blocks_post(state: AppState, pane: Option<u64>, n: usize, r: Response) -> bool {
    on_resolved(
        state,
        pane,
        r,
        |id: u64, rec: PaneRecord|
            r matches Response::Blocks { blocks } && last_entries(rec, id, n, blocks@),
    )
}

/// `block list`: the last `limit` blocks of the request's pane.
pub fn list_blocks(state: &AppState, pane: Option<u64>, limit: usize) -> (r: Response)
    ensures
        list_blocks_post(*state, pane, limit, r),
{
    match resolve_pane(state, pane) {
        Ok((id, t, p)) => {
            let ws = state.workspace.as_ref().unwrap();
            let entries = last_blocks(&ws.tabs[t].panes[p].blocks, id, limit);
            Response::Blocks { blocks: entries }
        },
        Err(e) => e,
    }
}

/// The contract of `read_screen`.
pub open spec fn read_screen_post(state: AppState, pane: Option<u64>, r: Response) -> bool {
    on_resolved(
        state,
        pane,
        r,
        |id: u64, rec: PaneRecord|
            r matches Response::Screen { pane: x, alt_screen, text } && x == id && alt_screen
                == rec.alt_screen && text@ == rec.screen_text@,
    )
}

/// `read-screen`: the rendered screen of the request's pane.
pub fn read_screen(state: &AppState, pane: Option<u64>) -> (r: Response)
    ensures
        read_screen_post(*state, pane, r),
{
    match resolve_pane(state, pane) {
        Ok((id, t, p)) => {
            let ws = state.workspace.as_ref().unwrap();
            let rec = &ws.tabs[t].panes[p];
            Response::Screen { pane: id, alt_screen: rec.alt_screen, text: rec.screen_text.clone() }
        },
        Err(e) => e,
    }
}

/// Index of the first block of `bs`, from `k` on, with id `id`.
pub open spec fn block_index_from(bs: Seq<BlockRecord>, id: Seq<char>, k: int) -> Option<int>
    decreases bs.len() - k,
{
    if k < 0 || k >= bs.len() {
        None
    } else if bs[k].id@ == id {
        Some(k)
    } else {
        block_index_from(bs, id, k + 1)
    }
}

/// Position (pane, block) of the first block with id `id` among the panes
/// of `ps`, from pane `p` on.
pub open spec fn block_in_panes_from(ps: Seq<PaneRecord>, id: Seq<char>, p: int) -> Option<(int, int)>
    decreases ps.len() - p,
{
    if p < 0 || p >= ps.len() {
        None
    } else {
        match block_index_from(ps[p].blocks@, id, 0) {
            Some(k) => Some((p, k)),
            None => block_in_panes_from(ps, id, p + 1),
        }
    }
}

/// Position (tab, pane, block) of the first block with id `id`, from tab
/// `t` on; hidden panes count.
pub open spec fn block_in_tabs_from(tabs: Seq<TabRecord>, id: Seq<char>, t: int) -> Option<
    (int, int, int),
>
    decreases tabs.len() - t,
{
    if t < 0 || t >= tabs.len() {
        None
    } else {
        match block_in_panes_from(tabs[t].panes@, id, 0) {
            Some((p, k)) => Some((t, p, k)),
            None => block_in_tabs_from(tabs, id, t + 1),
        }
    }
}

/// The message when there is no workspace to act on.
pub open spec fn no_workspace_message() -> Seq<char> {
    "no active workspace"@
}

/// The contract of `read_block`.
pub open spec fn read_block_post(state: AppState, block_id: Seq<char>, r: Response) -> bool {
    match state.workspace {
        None => r is Error && error_message(r) == no_workspace_message(),
        Some(ws) => match block_in_tabs_from(ws.tabs@, block_id, 0) {
            Some((t, p, k)) => r == Response::Block {
                block: block_entry_spec(
                    ws.tabs@[t].panes@[p].blocks@[k],
                    ws.tabs@[t].panes@[p].id,
                ),
            },
            None => r is Error && error_message(r) == "block "@ + block_id + " not found"@,
        },
    }
}

/// `block read`: the first block with the given id, searched tab by tab and
/// pane by pane.
pub fn read_block(state: &AppState, block_id: &str) -> (r: Response)
    ensures
        read_block_post(*state, block_id@, r),
{
    let ws = match &state.workspace {
        Some(ws) => ws,
        None => {
            return error_response(string_of("no active workspace"));
        },
    };
    let idv = chars_of(block_id);
    let mut t: usize = 0;
    while t < ws.tabs.len()
        invariant
            t <= ws.tabs@.len(),
            idv@ == block_id@,
            state.workspace == Some(*ws),
            block_in_tabs_from(ws.tabs@, block_id@, 0) == block_in_tabs_from(
                ws.tabs@,
                block_id@,
                t as int,
            ),
        decreases ws.tabs.len() - t,
    {
        let tab = &ws.tabs[t];
        let mut p: usize = 0;
        while p < tab.panes.len()
            invariant
                t < ws.tabs@.len(),
                *tab == ws.tabs@[t as int],
                p <= tab.panes@.len(),
                idv@ == block_id@,
                state.workspace == Some(*ws),
                block_in_panes_from(tab.panes@, block_id@, 0) == block_in_panes_from(
                    tab.panes@,
                    block_id@,
                    p as int,
                ),
                block_in_tabs_from(ws.tabs@, block_id@, 0) == block_in_tabs_from(
                    ws.tabs@,
                    block_id@,
                    t as int,
                ),
            decreases tab.panes.len() - p,
        {
            let pane = &tab.panes[p];
            let mut k: usize = 0;
            while k < pane.blocks.len()
                invariant
                    t < ws.tabs@.len(),
                    *tab == ws.tabs@[t as int],
                    p < tab.panes@.len(),
                    *pane == tab.panes@[p as int],
                    k <= pane.blocks@.len(),
                    idv@ == block_id@,
                    state.workspace == Some(*ws),
                    block_index_from(pane.blocks@, block_id@, 0) == block_index_from(
                        pane.blocks@,
                        block_id@,
                        k as int,
                    ),
                    block_in_panes_from(tab.panes@, block_id@, 0) == block_in_panes_from(
                        tab.panes@,
                        block_id@,
                        p as int,
                    ),
                    block_in_tabs_from(ws.tabs@, block_id@, 0) == block_in_tabs_from(
                        ws.tabs@,
                        block_id@,
                        t as int,
                    ),
                decreases pane.blocks.len() - k,
            {
                if chars_eq_str(&idv, pane.blocks[k].id.as_str()) {
                    proof {
                        assert(block_index_from(pane.blocks@, block_id@, k as int) == Some(
                            k as int,
                        ));
                        assert(block_in_panes_from(tab.panes@, block_id@, p as int) == Some(
                            (p as int, k as int),
                        ));
                        assert(block_in_tabs_from(ws.tabs@, block_id@, t as int) == Some(
                            (t as int, p as int, k as int),
                        ));
                    }
                    return Response::Block { block: block_to_entry(&pane.blocks[k], pane.id) };
                }
                k += 1;
            }
            p += 1;
        }
        t += 1;
    }
    let mut m = string_of("block ");
    push_str(&mut m, block_id);
    push_str(&mut m, " not found");
    error_response(m)
}

} // verus!
