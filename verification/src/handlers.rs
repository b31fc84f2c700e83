//! The control server's request handlers that change the app: each answers
//! with a response and names the change to make, which the caller carries
//! out. Also the outcome of submitting a command, and the routing of a
//! request to its handler.

use vstd::prelude::*;
use crate::keys::{keystroke_bytes_spec, keystroke_to_bytes};
use crate::text::{
    chars_eq_str, chars_of, debug_quoted, debug_str_repr, dec, push_char, push_decimal, push_str,
    views,
};
use crate::wait::{error_message, string_of, BlockWaitPoll, WaitForTextOptions};
use crate::workspace::{
    block_entry_spec, block_in_panes_from, block_in_tabs_from, is_pane_summary,
    lemma_locate_from, listed_panes, locate_from, pane_index_from, tab_selected,
    visible_in_tab, BlockRecord, block_index_from, block_to_entry, collect_pane_snapshot, error_response,
    find_pane, is_pane_snapshot, list_blocks, list_blocks_post, list_panes, list_panes_post,
    list_tabs, list_tabs_post, locate, no_workspace_message, pane_not_found,
    pane_not_found_message, read_block, read_block_post, read_pane, read_pane_post, read_screen,
    read_screen_post, record_at, resolve_pane, resolve_spec, AppState, PaneRecord, ShareRole,
    TabRecord, WorkspaceRecord,
};
use crate::wire::{PaneSnapshot, Request, Response, ShareScrollback, SplitDir};

verus! {

/// The singleton model that owns the control socket task in the app.
pub struct ControlModel;

/// The answer to a frame that does not hold a request.
pub fn invalid_request(reason: &str) -> (r: Response)
    ensures
        r is Error,
        error_message(r) == "invalid request: "@ + reason@,
{
    let mut m = string_of("invalid request: ");
    push_str(&mut m, reason);
    error_response(m)
}

/// A change to make in the app after a request.
pub enum ControlAction {
    /// Nothing changes.
    Nothing,
    ActivateTab(usize),
    CloseTab(usize),
    /// Activate the tab that holds the pane, then focus the pane.
    FocusPane { tab: usize, pane: u64 },
    ClosePane { tab: usize, pane: u64 },
    /// Focus the pane, then split it.
    SplitPane { pane: u64, direction: SplitDir },
    AddTerminalTab,
    /// Open the saved tab config with this name.
    OpenTabConfig(String),
    /// Write bytes to the pane's PTY.
    WritePty { pane: u64, bytes: Vec<u8> },
    StartSharing { pane: u64, scrollback: ShareScrollback },
    StopSharing { pane: u64 },
}

/// Index of the first tab, from `t` on, whose id or index is `tab`.
pub open spec fn tab_index_from(tabs: Seq<TabRecord>, tab: u64, t: int) -> Option<int>
    decreases tabs.len() - t,
{
    if t < 0 || t >= tabs.len() {
        None
    } else if tabs[t].id == tab || t == tab {
        Some(t)
    } else {
        tab_index_from(tabs, tab, t + 1)
    }
}

/// The tab a `--tab` argument names, by id or by index.
pub fn tab_position(ws: &WorkspaceRecord, tab: u64) -> (r: Option<usize>)
    ensures
        match r {
            Some(i) => tab_index_from(ws.tabs@, tab, 0) == Some(i as int),
            None => tab_index_from(ws.tabs@, tab, 0) is None,
        },
{
    let mut t: usize = 0;
    while t < ws.tabs.len()
        invariant
            t <= ws.tabs@.len(),
            tab_index_from(ws.tabs@, tab, 0) == tab_index_from(ws.tabs@, tab, t as int),
        decreases ws.tabs.len() - t,
    {
        if ws.tabs[t].id == tab || t as u64 == tab {
            return Some(t);
        }
        t += 1;
    }
    None
}

/// The message for a tab that does not exist.
pub open spec fn tab_not_found_message(tab: u64) -> Seq<char> {
    "tab "@ + dec(tab as nat) + " not found"@
}

/// The contract of the tab handlers: with the tab found, success and `act`
/// of its index; otherwise an error and no change.
pub open spec fn tab_post(
    state: AppState,
    tab: u64,
    r: (Response, ControlAction),
    act: spec_fn(usize) -> ControlAction,
) -> bool {
    match state.workspace {
        None => r.0 is Error && error_message(r.0) == no_workspace_message() && r.1
            is Nothing,
        Some(ws) => match tab_index_from(ws.tabs@, tab, 0) {
            Some(i) => r.0 is Success && r.1 == act(i as usize),
            None => r.0 is Error && error_message(r.0) == tab_not_found_message(tab) && r.1
                is Nothing,
        },
    }
}

fn tab_request(state: &AppState, tab: u64) -> (r: Result<usize, Response>)
    ensures
        match state.workspace {
            None => r matches Err(e) && e is Error && error_message(e) == no_workspace_message(),
            Some(ws) => match tab_index_from(ws.tabs@, tab, 0) {
                Some(i) => r == Ok::<usize, Response>(i as usize),
                None => r matches Err(e) && e is Error && error_message(e)
                    == tab_not_found_message(tab),
            },
        },
{
    let ws = match &state.workspace {
        Some(ws) => ws,
        None => {
            return Err(error_response(string_of("no active workspace")));
        },
    };
    match tab_position(ws, tab) {
        Some(i) => {
            proof {
                lemma_tab_index_from(ws.tabs@, tab, 0);
            }
            Ok(i)
        },
        None => {
            let mut m = string_of("tab ");
            push_decimal(&mut m, tab);
            push_str(&mut m, " not found");
            Err(error_response(m))
        },
    }
}

proof fn lemma_tab_index_from(tabs: Seq<TabRecord>, tab: u64, t: int)
    ensures
        tab_index_from(tabs, tab, t) matches Some(i) ==> 0 <= i < tabs.len(),
    decreases tabs.len() - t,
{
    if 0 <= t < tabs.len() && !(tabs[t].id == tab || t == tab) {
        lemma_tab_index_from(tabs, tab, t + 1);
    }
}

/// `tab focus`: activates the tab named by id or index.
pub fn focus_tab(state: &AppState, tab: u64) -> (r: (Response, ControlAction))
    ensures
        tab_post(*state, tab, r, |i: usize| ControlAction::ActivateTab(i)),
{
    match tab_request(state, tab) {
        Ok(i) => (Response::Success, ControlAction::ActivateTab(i)),
        Err(e) => (e, ControlAction::Nothing),
    }
}

/// `tab close`: closes the tab named by id or index.
pub fn close_tab(state: &AppState, tab: u64) -> (r: (Response, ControlAction))
    ensures
        tab_post(*state, tab, r, |i: usize| ControlAction::CloseTab(i)),
{
    match tab_request(state, tab) {
        Ok(i) => (Response::Success, ControlAction::CloseTab(i)),
        Err(e) => (e, ControlAction::Nothing),
    }
}

/// The contract of the handlers that act on a pane given by id: with the
/// pane found, success and `act` of its tab; otherwise an error and no
/// change.
pub open spec fn pane_id_post(
    state: AppState,
    pane: u64,
    r: (Response, ControlAction),
    act: spec_fn(usize) -> ControlAction,
) -> bool {
    match state.workspace {
        None => r.0 is Error && error_message(r.0) == no_workspace_message() && r.1
            is Nothing,
        Some(ws) => match locate(ws, pane) {
            Some((t, p)) => r.0 is Success && r.1 == act(t as usize),
            None => r.0 is Error && error_message(r.0) == pane_not_found_message(pane) && r.1
                is Nothing,
        },
    }
}

fn pane_owner(state: &AppState, pane: u64) -> (r: Result<usize, Response>)
    ensures
        match state.workspace {
            None => r matches Err(e) && e is Error && error_message(e) == no_workspace_message(),
            Some(ws) => match locate(ws, pane) {
                Some((t, p)) => r == Ok::<usize, Response>(t as usize),
                None => r matches Err(e) && e is Error && error_message(e)
                    == pane_not_found_message(pane),
            },
        },
{
    let ws = match &state.workspace {
        Some(ws) => ws,
        None => {
            return Err(error_response(string_of("no active workspace")));
        },
    };
    match find_pane(ws, pane) {
        Some((t, _)) => Ok(t),
        None => Err(pane_not_found(pane)),
    }
}

/// `pane focus`: activates the pane's tab and focuses the pane.
pub fn focus_pane(state: &AppState, pane: u64) -> (r: (Response, ControlAction))
    ensures
        pane_id_post(*state, pane, r, |t: usize| ControlAction::FocusPane { tab: t, pane }),
{
    match pane_owner(state, pane) {
        Ok(t) => (Response::Success, ControlAction::FocusPane { tab: t, pane }),
        Err(e) => (e, ControlAction::Nothing),
    }
}

/// `pane close`: closes the pane, without asking.
pub fn close_pane(state: &AppState, pane: u64) -> (r: (Response, ControlAction))
    ensures
        pane_id_post(*state, pane, r, |t: usize| ControlAction::ClosePane { tab: t, pane }),
{
    match pane_owner(state, pane) {
        Ok(t) => (Response::Success, ControlAction::ClosePane { tab: t, pane }),
        Err(e) => (e, ControlAction::Nothing),
    }
}

/// The contract of the handlers that act on the request's pane (given or
/// default): with the pane resolved, what `ok` says of its id and record;
/// otherwise the resolution error and no change.
pub open spec fn resolved_post(
    state: AppState,
    pane: Option<u64>,
    r: (Response, ControlAction),
    ok: spec_fn(u64, PaneRecord) -> bool,
) -> bool {
    match resolve_spec(state, pane) {
        Ok((id, (t, p))) => ok(id, record_at(state, t, p)),
        Err(m) => r.0 is Error && error_message(r.0) == m && r.1 is Nothing,
    }
}

/// `pane split`: splits the request's pane in the given direction.
pub fn split_pane(state: &AppState, pane: Option<u64>, direction: SplitDir) -> (r: (
    Response,
    ControlAction,
))
    ensures
        resolved_post(
            *state,
            pane,
            r,
            |id: u64, rec: PaneRecord|
                r.0 is Success && r.1 == ControlAction::SplitPane { pane: id, direction },
        ),
{
    match resolve_pane(state, pane) {
        Ok((id, _, _)) => (Response::Success, ControlAction::SplitPane { pane: id, direction }),
        Err(e) => (e, ControlAction::Nothing),
    }
}

/// `pane write`: writes the bytes verbatim to the pane's PTY.
pub fn write_bytes(state: &AppState, pane: Option<u64>, bytes: Vec<u8>) -> (r: (
    Response,
    ControlAction,
))
    ensures
        resolved_post(
            *state,
            pane,
            r,
            |id: u64, rec: PaneRecord|
                r.0 is Success && r.1 == ControlAction::WritePty { pane: id, bytes },
        ),
{
    match resolve_pane(state, pane) {
        Ok((id, _, _)) => (Response::Success, ControlAction::WritePty { pane: id, bytes }),
        Err(e) => (e, ControlAction::Nothing),
    }
}

/// The contract of `keystroke`.
pub open spec fn keystroke_post(state: AppState, pane: Option<u64>, key: Seq<char>, r: (
    Response,
    ControlAction,
)) -> bool {
    match keystroke_bytes_spec(key) {
        None => r.0 is Error && error_message(r.0) == "unknown key: "@ + debug_str_repr(key)
            && r.1 is Nothing,
        Some(b) => resolved_post(
            state,
            pane,
            r,
            |id: u64, rec: PaneRecord|
                {
                    &&& r.0 is Success
                    &&& r.1 matches ControlAction::WritePty { pane: x, bytes }
                    &&& x == id
                    &&& bytes@ == b
                },
        ),
    }
}

/// `pane key`: sends the bytes of a named key or chord to the pane's PTY.
pub fn keystroke(state: &AppState, pane: Option<u64>, key: &str) -> (r: (Response, ControlAction))
    ensures
        keystroke_post(*state, pane, key@, r),
{
    match keystroke_to_bytes(key) {
        Some(bytes) => write_bytes(state, pane, bytes),
        None => {
            let mut m = string_of("unknown key: ");
            let q = debug_quoted(key);
            push_str(&mut m, q.as_str());
            (error_response(m), ControlAction::Nothing)
        },
    }
}

/// The contract of `share_pane`.
pub open spec fn share_pane_post(
    state: AppState,
    pane: Option<u64>,
    scrollback: ShareScrollback,
    r: (Response, ControlAction),
) -> bool {
    resolved_post(
        state,
        pane,
        r,
        |id: u64, rec: PaneRecord|
            match rec.share_role {
                ShareRole::Viewer => r.0 is Error && error_message(r.0) == "pane "@ + dec(
                    id as nat,
                ) + " is viewing a shared session"@ && r.1 is Nothing,
                ShareRole::Sharer => r.0 == Response::ShareStarted { pane: id } && r.1 is Nothing,
                ShareRole::NotShared => r.0 == Response::ShareStarted { pane: id } && r.1
                    == ControlAction::StartSharing { pane: id, scrollback },
            },
    )
}

/// `pane share`: starts sharing the pane's session, unless it already
/// shares one; a pane that views someone else's session is refused.
pub fn share_pane(state: &AppState, pane: Option<u64>, scrollback: ShareScrollback) -> (r: (
    Response,
    ControlAction,
))
    ensures
        share_pane_post(*state, pane, scrollback, r),
{
    match resolve_pane(state, pane) {
        Ok((id, t, p)) => {
            let role = state.workspace.as_ref().unwrap().tabs[t].panes[p].share_role;
            match role {
                ShareRole::Viewer => {
                    let mut m = string_of("pane ");
                    push_decimal(&mut m, id);
                    push_str(&mut m, " is viewing a shared session");
                    (error_response(m), ControlAction::Nothing)
                },
                ShareRole::Sharer => (Response::ShareStarted { pane: id }, ControlAction::Nothing),
                ShareRole::NotShared => (
                    Response::ShareStarted { pane: id },
                    ControlAction::StartSharing { pane: id, scrollback },
                ),
            }
        },
        Err(e) => (e, ControlAction::Nothing),
    }
}

/// The contract of `share_pane_link`.
pub open spec fn share_link_post(state: AppState, pane: Option<u64>, r: Response) -> bool {
    on_pane(
        state,
        pane,
        r,
        |id: u64, rec: PaneRecord|
            match rec.share_link {
                Some(url) => r == Response::ShareLink { pane: id, url },
                None => if rec.share_role == ShareRole::Sharer {
                    r == Response::SharePending { pane: id }
                } else {
                    r is Error && error_message(r) == "pane "@ + dec(id as nat)
                        + " is not sharing; run pane share first"@
                },
            },
    )
}

/// `r` is the resolution error, or what `ok` says of the resolved pane.
pub open spec fn on_pane(
    state: AppState,
    pane: Option<u64>,
    r: Response,
    ok: spec_fn(u64, PaneRecord) -> bool,
) -> bool {
    match resolve_spec(state, pane) {
        Ok((id, (t, p))) => ok(id, record_at(state, t, p)),
        Err(m) => r is Error && error_message(r) == m,
    }
}

/// `pane share-link`: the join link of the pane's session; pending while a
/// sharing pane has no session yet; an error for a pane that does not share.
pub fn share_pane_link(state: &AppState, pane: Option<u64>) -> (r: Response)
    ensures
        share_link_post(*state, pane, r),
{
    match resolve_pane(state, pane) {
        Ok((id, t, p)) => {
            let rec = &state.workspace.as_ref().unwrap().tabs[t].panes[p];
            match &rec.share_link {
                Some(url) => Response::ShareLink { pane: id, url: url.clone() },
                None => {
                    if rec.share_role == ShareRole::Sharer {
                        Response::SharePending { pane: id }
                    } else {
                        let mut m = string_of("pane ");
                        push_decimal(&mut m, id);
                        push_str(&mut m, " is not sharing; run pane share first");
                        error_response(m)
                    }
                },
            }
        },
        Err(e) => e,
    }
}

/// The contract of `unshare_pane`.
pub open spec fn unshare_post(state: AppState, pane: Option<u64>, r: (Response, ControlAction)) -> bool {
    resolved_post(
        state,
        pane,
        r,
        |id: u64, rec: PaneRecord|
            if rec.share_role == ShareRole::Sharer {
                r.0 == Response::ShareStopped { pane: id } && r.1 == ControlAction::StopSharing {
                    pane: id,
                }
            } else {
                r.0 is Error && error_message(r.0) == "pane "@ + dec(id as nat) + " is not sharing"@
                    && r.1 is Nothing
            },
    )
}

/// `pane unshare`: stops sharing the pane's session.
pub fn unshare_pane(state: &AppState, pane: Option<u64>) -> (r: (Response, ControlAction))
    ensures
        unshare_post(*state, pane, r),
{
    match resolve_pane(state, pane) {
        Ok((id, t, p)) => {
            let role = state.workspace.as_ref().unwrap().tabs[t].panes[p].share_role;
            if role == ShareRole::Sharer {
                (Response::ShareStopped { pane: id }, ControlAction::StopSharing { pane: id })
            } else {
                let mut m = string_of("pane ");
                push_decimal(&mut m, id);
                push_str(&mut m, " is not sharing");
                (error_response(m), ControlAction::Nothing)
            }
        },
        Err(e) => (e, ControlAction::Nothing),
    }
}

/// The items joined with `", "`.
pub open spec fn join_comma(items: Seq<Seq<char>>) -> Seq<char>
    decreases items.len(),
{
    if items.len() == 0 {
        seq![]
    } else if items.len() == 1 {
        items[0]
    } else {
        join_comma(items.drop_last()) + ", "@ + items.last()
    }
}

/// Joins `items` with `", "`.
pub fn join_with_commas(items: &Vec<String>) -> (r: String)
    ensures
        r@ == join_comma(views(items@)),
{
    let mut r = String::new();
    let ghost ws = views(items@);
    let mut i: usize = 0;
    while i < items.len()
        invariant
            i <= items@.len(),
            ws == views(items@),
            r@ == join_comma(ws.take(i as int)),
        decreases items.len() - i,
    {
        proof {
            assert(ws.take(i + 1).drop_last() =~= ws.take(i as int));
            assert(ws.take(i + 1).last() == items@[i as int]@);
        }
        if i > 0 {
            push_str(&mut r, ", ");
        }
        push_str(&mut r, items[i].as_str());
        proof {
            if i == 0 {
                assert(r@ =~= ws.take(1)[0]);
            } else {
                assert(r@ =~= join_comma(ws.take(i as int)) + ", "@ + ws.take(i + 1).last());
            }
        }
        i += 1;
    }
    proof {
        assert(ws.take(items@.len() as int) =~= ws);
    }
    r
}

/// Index of the first config name equal to `name`.
pub open spec fn config_index_from(names: Seq<String>, name: Seq<char>, i: int) -> Option<int>
    decreases names.len() - i,
{
    if i < 0 || i >= names.len() {
        None
    } else if names[i]@ == name {
        Some(i)
    } else {
        config_index_from(names, name, i + 1)
    }
}

/// The message for a tab config name that is not saved.
pub open spec fn no_config_message(name: Seq<char>, names: Seq<String>) -> Seq<char> {
    "no tab config named "@ + debug_str_repr(name) + ". Available: "@ + (if names.len() == 0 {
        "(none)"@
    } else {
        join_comma(views(names))
    })
}

/// The contract of `new_tab`.
pub open spec fn new_tab_post(state: AppState, config: Option<String>, r: (Response, ControlAction)) -> bool {
    match state.workspace {
        None => r.0 is Error && error_message(r.0) == no_workspace_message() && r.1
            is Nothing,
        Some(ws) => match config {
            None => r.0 is Success && r.1 is AddTerminalTab,
            Some(name) => if config_index_from(state.tab_configs@, name@, 0) is Some {
                r.0 is Success && r.1 == ControlAction::OpenTabConfig(name)
            } else {
                r.0 is Error && error_message(r.0) == no_config_message(
                    name@,
                    state.tab_configs@,
                ) && r.1 is Nothing
            },
        },
    }
}

/// `tab new`: opens a plain terminal tab, or the saved tab config with the
/// given name; an unknown name is refused with the list of saved names.
pub fn new_tab(state: &AppState, config: Option<String>) -> (r: (Response, ControlAction))
    ensures
        new_tab_post(*state, config, r),
{
    if state.workspace.is_none() {
        return (error_response(string_of("no active workspace")), ControlAction::Nothing);
    }
    let name = match config {
        Some(name) => name,
        None => {
            return (Response::Success, ControlAction::AddTerminalTab);
        },
    };
    let nv = chars_of(name.as_str());
    let mut i: usize = 0;
    while i < state.tab_configs.len()
        invariant
            i <= state.tab_configs@.len(),
            nv@ == name@,
            config == Some(name),
            state.workspace is Some,
            config_index_from(state.tab_configs@, name@, 0) == config_index_from(
                state.tab_configs@,
                name@,
                i as int,
            ),
        decreases state.tab_configs.len() - i,
    {
        if chars_eq_str(&nv, state.tab_configs[i].as_str()) {
            proof {
                assert(config_index_from(state.tab_configs@, name@, i as int) == Some(i as int));
            }
            return (Response::Success, ControlAction::OpenTabConfig(name));
        }
        i += 1;
    }
    let mut m = string_of("no tab config named ");
    let q = debug_quoted(name.as_str());
    push_str(&mut m, q.as_str());
    push_str(&mut m, ". Available: ");
    if state.tab_configs.len() == 0 {
        push_str(&mut m, "(none)");
    } else {
        let joined = join_with_commas(&state.tab_configs);
        push_str(&mut m, joined.as_str());
    }
    (error_response(m), ControlAction::Nothing)
}

/// Why the app refused to run a submitted command.
#[derive(Debug, Clone, Copy, PartialEq, Eq, Structural)]
pub enum DenyExecutionReason {
    NotBootstrapped,
    ExistingActiveCommand,
    HistoryNotAppendable,
}

/// What happened to a command submitted to a pane.
#[derive(Debug, Clone, Copy, PartialEq, Eq, Structural)]
pub enum CommandExecutionResult {
    Executed,
    Blocked(DenyExecutionReason),
    NotExecuted,
}

/// The message for a refused command.
pub open spec fn deny_message_spec(reason: DenyExecutionReason) -> Seq<char> {
    match reason {
        DenyExecutionReason::NotBootstrapped => "pane is not ready to execute commands yet because shell bootstrapping is still in progress"@,
        DenyExecutionReason::ExistingActiveCommand => "pane cannot execute commands while another command is already running"@,
        DenyExecutionReason::HistoryNotAppendable => "pane cannot execute commands because its history is not appendable"@,
    }
}

/// The message for a refused command (see `deny_message_spec`).
pub fn deny_execution_message(reason: DenyExecutionReason) -> (r: &'static str)
    ensures
        r@ == deny_message_spec(reason),
{
    match reason {
        DenyExecutionReason::NotBootstrapped => "pane is not ready to execute commands yet because shell bootstrapping is still in progress",
        DenyExecutionReason::ExistingActiveCommand => "pane cannot execute commands while another command is already running",
        DenyExecutionReason::HistoryNotAppendable => "pane cannot execute commands because its history is not appendable",
    }
}

/// A command that runs in a pane, with the id of its block.
pub struct SubmittedCommand {
    pub pane: u64,
    pub block_id: String,
}

/// The outcome of submitting a command to pane `pane`: it runs in the block
/// `block_id`, or the error that says why it does not.
pub fn submit_outcome(pane: u64, result: CommandExecutionResult, block_id: Option<String>) -> (r:
    Result<SubmittedCommand, Response>)
    ensures
        match result {
            CommandExecutionResult::Executed => match block_id {
                Some(id) => r matches Ok(c) && c.pane == pane && c.block_id == id,
                None => r matches Err(e) && e is Error && error_message(e)
                    == "command executed but no block id was captured"@,
            },
            CommandExecutionResult::Blocked(reason) => r matches Err(e) && e is Error
                && error_message(e) == deny_message_spec(reason),
            CommandExecutionResult::NotExecuted => r matches Err(e) && e is Error
                && error_message(e) == "command was not executed"@,
        },
{
    match result {
        CommandExecutionResult::Executed => match block_id {
            Some(id) => Ok(SubmittedCommand { pane, block_id: id }),
            None => Err(
                error_response(string_of("command executed but no block id was captured")),
            ),
        },
        CommandExecutionResult::Blocked(reason) => Err(
            error_response(string_of(deny_execution_message(reason))),
        ),
        CommandExecutionResult::NotExecuted => Err(
            error_response(string_of("command was not executed")),
        ),
    }
}

/// The answer to `send-input` without `--wait`: success once the command
/// runs, the error otherwise.
pub fn send_input_response(submitted: Result<SubmittedCommand, Response>) -> (r: Response)
    ensures
        match submitted {
            Ok(_) => r is Success,
            Err(e) => r == e,
        },
{
    match submitted {
        Ok(_) => Response::Success,
        Err(e) => e,
    }
}

/// One poll of a submitted command's block: the block's wire form, done or
/// still running; an error when the pane or the block is gone.
pub fn poll_submitted_block(state: &AppState, pane: u64, block_id: &str) -> (r: BlockWaitPoll)
    ensures
        match state.workspace {
            None => r matches BlockWaitPoll::Error(e) && e is Error && error_message(e)
                == pane_not_found_message(pane),
            Some(ws) => match locate(ws, pane) {
                None => r matches BlockWaitPoll::Error(e) && e is Error && error_message(e)
                    == pane_not_found_message(pane),
                Some((t, p)) => {
                    let rec = ws.tabs@[t].panes@[p];
                    match block_index_from(rec.blocks@, block_id@, 0) {
                        None => r matches BlockWaitPoll::Error(e) && e is Error && error_message(e)
                            == "block "@ + block_id@ + " not found"@,
                        Some(k) => if rec.blocks@[k].done {
                            r == BlockWaitPoll::Done(block_entry_spec(rec.blocks@[k], pane))
                        } else {
                            r == BlockWaitPoll::Running(block_entry_spec(rec.blocks@[k], pane))
                        },
                    }
                },
            },
        },
{
    let ws = match &state.workspace {
        Some(ws) => ws,
        None => {
            return BlockWaitPoll::Error(pane_not_found(pane));
        },
    };
    let (t, p) = match find_pane(ws, pane) {
        Some(found) => found,
        None => {
            return BlockWaitPoll::Error(pane_not_found(pane));
        },
    };
    let rec = &ws.tabs[t].panes[p];
    let idv = chars_of(block_id);
    let mut k: usize = 0;
    while k < rec.blocks.len()
        invariant
            k <= rec.blocks@.len(),
            idv@ == block_id@,
            state.workspace == Some(*ws),
            locate(*ws, pane) == Some((t as int, p as int)),
            t < ws.tabs@.len(),
            p < ws.tabs@[t as int].panes@.len(),
            *rec == ws.tabs@[t as int].panes@[p as int],
            block_index_from(rec.blocks@, block_id@, 0) == block_index_from(
                rec.blocks@,
                block_id@,
                k as int,
            ),
        decreases rec.blocks.len() - k,
    {
        if chars_eq_str(&idv, rec.blocks[k].id.as_str()) {
            proof {
                assert(block_index_from(rec.blocks@, block_id@, k as int) == Some(k as int));
            }
            let entry = block_to_entry(&rec.blocks[k], pane);
            if rec.blocks[k].done {
                return BlockWaitPoll::Done(entry);
            } else {
                return BlockWaitPoll::Running(entry);
            }
        }
        k += 1;
    }
    let mut m = string_of("block ");
    push_str(&mut m, block_id);
    push_str(&mut m, " not found");
    BlockWaitPoll::Error(error_response(m))
}

/// Where a request goes after routing.
pub enum Dispatched {
    /// Make the change, then answer.
    Reply(Response, ControlAction),
    /// Submit the text as a command in the pane, then answer (or, with
    /// `wait`, poll the command's block until it finishes or times out).
    Submit { pane: u64, text: String, wait: bool, timeout_ms: Option<u64> },
    /// Poll the pane until the text appears or the wait times out.
    WaitForText(WaitForTextOptions),
}

/// `d` answers with a response of which `post` holds, and changes nothing.
pub open spec fn replies(d: Dispatched, post: spec_fn(Response) -> bool) -> bool {
    d matches Dispatched::Reply(r, a) && a is Nothing && post(r)
}

/// `d` answers as `post` says of the response and the change.
pub open spec fn acts(d: Dispatched, post: spec_fn((Response, ControlAction)) -> bool) -> bool {
    d matches Dispatched::Reply(r, a) && post((r, a))
}

/// The contract of `dispatch`: each request goes to its handler.
pub open spec fn dispatch_post(state: AppState, request: Request, captured_at: String, d: Dispatched) -> bool {
    match request {
        Request::Ping => d == Dispatched::Reply(Response::Pong, ControlAction::Nothing),
        Request::ListTabs => replies(d, |r: Response| list_tabs_post(state, r)),
        Request::ListPanes { tab } => replies(d, |r: Response| list_panes_post(state, tab, r)),
        Request::SendInput { pane, text, wait, timeout_ms } => match resolve_spec(state, pane) {
            Ok((id, _)) => d == Dispatched::Submit { pane: id, text, wait, timeout_ms },
            Err(m) => replies(d, |r: Response| r is Error && error_message(r) == m),
        },
        Request::ReadPane { pane, blocks } => replies(
            d,
            |r: Response| read_pane_post(state, pane, blocks, r),
        ),
        Request::ReadScreen { pane } => replies(d, |r: Response| read_screen_post(state, pane, r)),
        Request::SnapshotPane { pane, blocks, include_screen, max_output_bytes, json } => replies(
            d,
            |r: Response|
                on_pane(
                    state,
                    pane,
                    r,
                    |id: u64, rec: PaneRecord|
                        {
                            &&& r matches Response::PaneSnapshot { snapshot, json: j }
                            &&& j == json
                            &&& is_pane_snapshot(
                                state.workspace->0,
                                id,
                                rec,
                                blocks,
                                include_screen,
                                max_output_bytes as nat,
                                captured_at,
                                snapshot,
                            )
                        },
                ),
        ),
        Request::WaitForText {
            pane,
            text,
            regex,
            timeout_ms,
            mode,
            case_insensitive,
            since,
            blocks,
            block_field,
            max_output_bytes,
            json,
        } => d == Dispatched::WaitForText(
            WaitForTextOptions {
                pane,
                text,
                regex,
                timeout_ms,
                mode,
                case_insensitive,
                since,
                blocks,
                block_field,
                max_output_bytes,
                json,
            },
        ),
        Request::SharePane { pane, scrollback } => acts(
            d,
            |r: (Response, ControlAction)| share_pane_post(state, pane, scrollback, r),
        ),
        Request::SharePaneLink { pane } => replies(
            d,
            |r: Response| share_link_post(state, pane, r),
        ),
        Request::UnsharePane { pane } => acts(
            d,
            |r: (Response, ControlAction)| unshare_post(state, pane, r),
        ),
        Request::NewTab { config } => acts(
            d,
            |r: (Response, ControlAction)| new_tab_post(state, config, r),
        ),
        Request::CloseTab { tab } => acts(
            d,
            |r: (Response, ControlAction)|
                tab_post(state, tab, r, |i: usize| ControlAction::CloseTab(i)),
        ),
        Request::FocusTab { tab } => acts(
            d,
            |r: (Response, ControlAction)|
                tab_post(state, tab, r, |i: usize| ControlAction::ActivateTab(i)),
        ),
        Request::FocusPane { pane } => acts(
            d,
            |r: (Response, ControlAction)|
                pane_id_post(
                    state,
                    pane,
                    r,
                    |t: usize| ControlAction::FocusPane { tab: t, pane },
                ),
        ),
        Request::SplitPane { pane, direction } => acts(
            d,
            |r: (Response, ControlAction)|
                resolved_post(
                    state,
                    pane,
                    r,
                    |id: u64, rec: PaneRecord|
                        r.0 is Success && r.1 == ControlAction::SplitPane { pane: id, direction },
                ),
        ),
        Request::ClosePane { pane } => acts(
            d,
            |r: (Response, ControlAction)|
                pane_id_post(
                    state,
                    pane,
                    r,
                    |t: usize| ControlAction::ClosePane { tab: t, pane },
                ),
        ),
        Request::ListBlocks { pane, limit } => replies(
            d,
            |r: Response| list_blocks_post(state, pane, limit, r),
        ),
        Request::ReadBlock { block } => replies(d, |r: Response| read_block_post(state, block@, r)),
        Request::WriteBytes { pane, bytes } => acts(
            d,
            |r: (Response, ControlAction)|
                resolved_post(
                    state,
                    pane,
                    r,
                    |id: u64, rec: PaneRecord|
                        r.0 is Success && r.1 == ControlAction::WritePty { pane: id, bytes },
                ),
        ),
        Request::Keystroke { pane, key } => acts(
            d,
            |r: (Response, ControlAction)| keystroke_post(state, pane, key@, r),
        ),
    }
}

/// Routes a request to its handler. A snapshot taken for the request is
/// stamped with `captured_at`.
pub fn dispatch(state: &AppState, request: Request, captured_at: String) -> (d: Dispatched)
    ensures
        dispatch_post(*state, request, captured_at, d),
{
    match request {
        Request::Ping => Dispatched::Reply(Response::Pong, ControlAction::Nothing),
        Request::ListTabs => Dispatched::Reply(list_tabs(state), ControlAction::Nothing),
        Request::ListPanes { tab } => Dispatched::Reply(
            list_panes(state, tab),
            ControlAction::Nothing,
        ),
        Request::SendInput { pane, text, wait, timeout_ms } => match resolve_pane(state, pane) {
            Ok((id, _, _)) => Dispatched::Submit { pane: id, text, wait, timeout_ms },
            Err(e) => Dispatched::Reply(e, ControlAction::Nothing),
        },
        Request::ReadPane { pane, blocks } => Dispatched::Reply(
            read_pane(state, pane, blocks),
            ControlAction::Nothing,
        ),
        Request::ReadScreen { pane } => Dispatched::Reply(
            read_screen(state, pane),
            ControlAction::Nothing,
        ),
        Request::SnapshotPane { pane, blocks, include_screen, max_output_bytes, json } => {
            let r = match collect_pane_snapshot(
                state,
                pane,
                blocks,
                include_screen,
                max_output_bytes,
                captured_at,
            ) {
                Ok(snapshot) => Response::PaneSnapshot { snapshot, json },
                Err(e) => e,
            };
            Dispatched::Reply(r, ControlAction::Nothing)
        },
        Request::WaitForText {
            pane,
            text,
            regex,
            timeout_ms,
            mode,
            case_insensitive,
            since,
            blocks,
            block_field,
            max_output_bytes,
            json,
        } => Dispatched::WaitForText(
            WaitForTextOptions {
                pane,
                text,
                regex,
                timeout_ms,
                mode,
                case_insensitive,
                since,
                blocks,
                block_field,
                max_output_bytes,
                json,
            },
        ),
        Request::SharePane { pane, scrollback } => {
            let (r, a) = share_pane(state, pane, scrollback);
            Dispatched::Reply(r, a)
        },
        Request::SharePaneLink { pane } => Dispatched::Reply(
            share_pane_link(state, pane),
            ControlAction::Nothing,
        ),
        Request::UnsharePane { pane } => {
            let (r, a) = unshare_pane(state, pane);
            Dispatched::Reply(r, a)
        },
        Request::NewTab { config } => {
            let (r, a) = new_tab(state, config);
            Dispatched::Reply(r, a)
        },
        Request::CloseTab { tab } => {
            let (r, a) = close_tab(state, tab);
            Dispatched::Reply(r, a)
        },
        Request::FocusTab { tab } => {
            let (r, a) = focus_tab(state, tab);
            Dispatched::Reply(r, a)
        },
        Request::FocusPane { pane } => {
            let (r, a) = focus_pane(state, pane);
            Dispatched::Reply(r, a)
        },
        Request::SplitPane { pane, direction } => {
            let (r, a) = split_pane(state, pane, direction);
            Dispatched::Reply(r, a)
        },
        Request::ClosePane { pane } => {
            let (r, a) = close_pane(state, pane);
            Dispatched::Reply(r, a)
        },
        Request::ListBlocks { pane, limit } => Dispatched::Reply(
            list_blocks(state, pane, limit),
            ControlAction::Nothing,
        ),
        Request::ReadBlock { block } => Dispatched::Reply(
            read_block(state, block.as_str()),
            ControlAction::Nothing,
        ),
        Request::WriteBytes { pane, bytes } => {
            let (r, a) = write_bytes(state, pane, bytes);
            Dispatched::Reply(r, a)
        },
        Request::Keystroke { pane, key } => {
            let (r, a) = keystroke(state, pane, key.as_str());
            Dispatched::Reply(r, a)
        },
    }
}

proof fn lemma_tab_index_found(tabs: Seq<TabRecord>, tab: u64, s: int, t: int)
    requires
        0 <= s <= t < tabs.len(),
        tabs[t].id == tab,
    ensures
        tab_index_from(tabs, tab, s) is Some,
    decreases t - s,
{
    if s < t && !(tabs[s].id == tab || s == tab) {
        lemma_tab_index_found(tabs, tab, s + 1, t);
    }
}

/// Every tab id that `list-tabs` shows names a tab that `tab focus` and
/// `tab close` find.
pub proof fn lemma_listed_tab_is_found(state: AppState, r: Response, i: int)
    requires
        list_tabs_post(state, r),
        r matches Response::Tabs { tabs } && 0 <= i < tabs@.len(),
    ensures
        state.workspace matches Some(ws) && tab_index_from(ws.tabs@, r->tabs@[i].id, 0) is Some,
{
    let ws = state.workspace->0;
    lemma_tab_index_found(ws.tabs@, r->tabs@[i].id, 0, i);
}

proof fn lemma_pane_index_found(ps: Seq<PaneRecord>, id: u64, s: int, k: int)
    requires
        0 <= s <= k < ps.len(),
        ps[k].id == id,
    ensures
        pane_index_from(ps, id, s) is Some,
    decreases k - s,
{
    if s < k && ps[s].id != id {
        lemma_pane_index_found(ps, id, s + 1, k);
    }
}

proof fn lemma_locate_found(tabs: Seq<TabRecord>, id: u64, s: int, t: int, k: int)
    requires
        0 <= s <= t < tabs.len(),
        0 <= k < tabs[t].panes@.len(),
        tabs[t].panes@[k].id == id,
    ensures
        locate_from(tabs, id, s) is Some,
    decreases t - s,
{
    if s == t {
        lemma_pane_index_found(tabs[t].panes@, id, 0, k);
    } else if pane_index_from(tabs[s].panes@, id, 0) is None {
        lemma_locate_found(tabs, id, s + 1, t, k);
    }
}

/// Each pane that `visible_in_tab` lists comes from the pane list, tagged
/// with the tab.
proof fn lemma_visible_in_tab_origin(ps: Seq<PaneRecord>, t: int, i: int) -> (k: int)
    requires
        0 <= i < visible_in_tab(ps, t).len(),
    ensures
        visible_in_tab(ps, t)[i].0 == t,
        0 <= k < ps.len(),
        ps[k] == visible_in_tab(ps, t)[i].1,
    decreases ps.len(),
{
    let d = ps.drop_last();
    if ps.last().hidden {
        lemma_visible_in_tab_origin(d, t, i)
    } else if i < visible_in_tab(d, t).len() {
        lemma_visible_in_tab_origin(d, t, i)
    } else {
        ps.len() - 1
    }
}

/// Each pane that `listed_panes` lists is a pane of one of the tabs.
proof fn lemma_listed_pane_origin(ws: WorkspaceRecord, filter: Option<u64>, n: int, i: int) -> (tk: (
    int,
    int,
))
    requires
        0 <= i < listed_panes(ws, filter, n).len(),
    ensures
        0 <= tk.0 < ws.tabs@.len(),
        listed_panes(ws, filter, n)[i].0 == tk.0,
        0 <= tk.1 < ws.tabs@[tk.0].panes@.len(),
        ws.tabs@[tk.0].panes@[tk.1] == listed_panes(ws, filter, n)[i].1,
    decreases n,
{
    let prev = listed_panes(ws, filter, n - 1);
    if tab_selected(filter, ws.tabs@[n - 1], n - 1) && i >= prev.len() {
        let k = lemma_visible_in_tab_origin(ws.tabs@[n - 1].panes@, n - 1, i - prev.len());
        (n - 1, k)
    } else {
        lemma_listed_pane_origin(ws, filter, n - 1, i)
    }
}

/// Every pane id that `list-panes` shows names a pane that `pane focus`,
/// `pane close` and the pane-targeted requests find.
pub proof fn lemma_listed_pane_is_found(state: AppState, filter_tab: Option<u64>, r: Response, i: int)
    requires
        list_panes_post(state, filter_tab, r),
        r matches Response::Panes { panes } && 0 <= i < panes@.len(),
    ensures
        state.workspace matches Some(ws) && locate(ws, r->panes@[i].id) is Some,
{
    let ws = state.workspace->0;
    let l = listed_panes(ws, filter_tab, ws.tabs@.len() as int);
    let (t, k) = lemma_listed_pane_origin(ws, filter_tab, ws.tabs@.len() as int, i);
    assert(is_pane_summary(ws, l[i].0, l[i].1, r->panes@[i]));
    lemma_locate_found(ws.tabs@, r->panes@[i].id, 0, t, k);
}

proof fn lemma_block_index_found(bs: Seq<BlockRecord>, id: Seq<char>, s: int, j: int)
    requires
        0 <= s <= j < bs.len(),
        bs[j].id@ == id,
    ensures
        block_index_from(bs, id, s) is Some,
    decreases j - s,
{
    if s < j && bs[s].id@ != id {
        lemma_block_index_found(bs, id, s + 1, j);
    }
}

proof fn lemma_block_in_panes_found(ps: Seq<PaneRecord>, id: Seq<char>, s: int, p: int, j: int)
    requires
        0 <= s <= p < ps.len(),
        0 <= j < ps[p].blocks@.len(),
        ps[p].blocks@[j].id@ == id,
    ensures
        block_in_panes_from(ps, id, s) is Some,
    decreases p - s,
{
    if s == p {
        lemma_block_index_found(ps[p].blocks@, id, 0, j);
    } else if block_index_from(ps[s].blocks@, id, 0) is None {
        lemma_block_in_panes_found(ps, id, s + 1, p, j);
    }
}

proof fn lemma_block_in_tabs_found(tabs: Seq<TabRecord>, id: Seq<char>, s: int, t: int, p: int, j: int)
    requires
        0 <= s <= t < tabs.len(),
        0 <= p < tabs[t].panes@.len(),
        0 <= j < tabs[t].panes@[p].blocks@.len(),
        tabs[t].panes@[p].blocks@[j].id@ == id,
    ensures
        block_in_tabs_from(tabs, id, s) is Some,
    decreases t - s,
{
    if s == t {
        lemma_block_in_panes_found(tabs[t].panes@, id, 0, p, j);
    } else if block_in_panes_from(tabs[s].panes@, id, 0) is None {
        lemma_block_in_tabs_found(tabs, id, s + 1, t, p, j);
    }
}

/// Every block id that `block list` shows names a block that `block read`
/// finds.
pub proof fn lemma_listed_block_is_found(state: AppState, pane: Option<u64>, n: usize, r: Response, i: int)
    requires
        list_blocks_post(state, pane, n, r),
        r matches Response::Blocks { blocks } && 0 <= i < blocks@.len(),
    ensures
        state.workspace matches Some(ws) && block_in_tabs_from(ws.tabs@, r->Blocks_blocks@[i].id@, 0)
            is Some,
{
    match resolve_spec(state, pane) {
        Ok((id, (t, p))) => {
            let ws = state.workspace->0;
            lemma_locate_from(ws.tabs@, id, 0);
            let rec = ws.tabs@[t].panes@[p];
            let v = r->Blocks_blocks@;
            let j = rec.blocks@.len() - v.len() + i;
            assert(v[i] == block_entry_spec(rec.blocks@[j], id));
            lemma_block_in_tabs_found(ws.tabs@, v[i].id@, 0, t, p, j);
        },
        Err(m) => {},
    }
}

} // verus!
