use warp_control::handlers::{
    close_pane, close_tab, deny_execution_message, dispatch, focus_pane, focus_tab,
    invalid_request, keystroke, new_tab, poll_submitted_block, send_input_response,
    share_pane, share_pane_link, split_pane, submit_outcome, unshare_pane, write_bytes,
    CommandExecutionResult, ControlAction, DenyExecutionReason, Dispatched,
};
use warp_control::wait::BlockWaitPoll;
use warp_control::wire::{Request, Response, ShareScrollback, SplitDir};
use warp_control::workspace::{
    block_to_entry, collect_pane_snapshot, first_pane_id, list_blocks, list_panes, list_tabs,
    read_block, read_pane, read_screen, resolve_pane, ActiveBlock, AppState, BlockRecord,
    PaneRecord, ShareRole, TabRecord, WorkspaceRecord,
};

fn block(id: &str, command: &str, output: &str, done: bool) -> BlockRecord {
    BlockRecord {
        id: id.to_string(),
        prompt_and_command: command.to_string(),
        command: command.trim().to_string(),
        output: output.to_string(),
        done,
        exit_code: 2,
        pwd: Some("/w".to_string()),
        started_at: Some("s".to_string()),
        completed_at: None,
    }
}

fn pane(id: u64, hidden: bool, blocks: Vec<BlockRecord>) -> PaneRecord {
    PaneRecord {
        id,
        hidden,
        cwd: Some(format!("/p{id}")),
        alt_screen: false,
        screen_text: format!("screen of {id}"),
        blocks,
        share_role: ShareRole::NotShared,
        share_link: None,
        bootstrapped: true,
        active_block: ActiveBlock {
            command: String::new(),
            executing: false,
            started: false,
            done: false,
        },
    }
}

fn state() -> AppState {
    AppState {
        workspace: Some(WorkspaceRecord {
            tabs: vec![
                TabRecord {
                    id: 100,
                    panes: vec![
                        pane(1, false, vec![block("b1", "ls", "a\nb", true)]),
                        pane(2, true, vec![block("b2", "  ", "hidden", false)]),
                    ],
                    focused_pane: Some(1),
                },
                TabRecord {
                    id: 200,
                    panes: vec![pane(
                        3,
                        false,
                        vec![
                            block("c1", "one", "1", true),
                            block("c2", "two", "22", true),
                            block("c3", "three", "333333", false),
                        ],
                    )],
                    focused_pane: None,
                },
            ],
            active_tab: 1,
        }),
        tab_configs: vec!["SSH: box".to_string(), "Dev".to_string()],
    }
}

fn empty_state() -> AppState {
    AppState { workspace: None, tab_configs: vec![] }
}

fn error_text(r: &Response) -> String {
    match r {
        Response::Error { message } => message.clone(),
        other => panic!("expected an error, got {other:?}"),
    }
}

#[test]
fn default_pane_prefers_focus_then_first_pane() {
    let mut s = state();
    assert_eq!(first_pane_id(s.workspace.as_ref().unwrap()), Some(3));
    s.workspace.as_mut().unwrap().active_tab = 0;
    assert_eq!(first_pane_id(s.workspace.as_ref().unwrap()), Some(1));
    s.workspace.as_mut().unwrap().active_tab = 9;
    assert_eq!(first_pane_id(s.workspace.as_ref().unwrap()), Some(1));
}

#[test]
fn resolve_pane_errors() {
    let s = state();
    assert_eq!(resolve_pane(&s, Some(2)).ok(), Some((2, 0, 1)));
    assert_eq!(resolve_pane(&s, None).ok(), Some((3, 1, 0)));
    let err = resolve_pane(&s, Some(77)).err().unwrap();
    assert_eq!(error_text(&err), "pane 77 not found");
    let err = resolve_pane(&empty_state(), None).err().unwrap();
    assert_eq!(error_text(&err), "no pane specified and no focused pane found");
    let err = resolve_pane(&empty_state(), Some(5)).err().unwrap();
    assert_eq!(error_text(&err), "pane 5 not found");
}

#[test]
fn list_tabs_shows_visible_panes() {
    match list_tabs(&state()) {
        Response::Tabs { tabs } => {
            assert_eq!(tabs.len(), 2);
            assert_eq!(tabs[0].id, 100);
            assert_eq!(tabs[0].pane_ids, vec![1]);
            assert!(!tabs[0].active);
            assert_eq!(tabs[1].index, 1);
            assert!(tabs[1].active);
        }
        other => panic!("unexpected {other:?}"),
    }
    assert!(matches!(list_tabs(&empty_state()), Response::Tabs { tabs } if tabs.is_empty()));
}

#[test]
fn list_panes_filters_by_tab_id_or_index() {
    match list_panes(&state(), None) {
        Response::Panes { panes } => {
            let ids: Vec<u64> = panes.iter().map(|p| p.id).collect();
            assert_eq!(ids, vec![1, 3]);
            assert!(!panes[0].focused);
            assert_eq!(panes[1].cwd.as_deref(), Some("/p3"));
        }
        other => panic!("unexpected {other:?}"),
    }
    match list_panes(&state(), Some(200)) {
        Response::Panes { panes } => assert_eq!(panes.len(), 1),
        other => panic!("unexpected {other:?}"),
    }
    match list_panes(&state(), Some(0)) {
        Response::Panes { panes } => {
            assert_eq!(panes.len(), 1);
            assert_eq!(panes[0].id, 1);
            assert_eq!(panes[0].tab_id, 100);
        }
        other => panic!("unexpected {other:?}"),
    }
    let mut s = state();
    s.workspace.as_mut().unwrap().active_tab = 0;
    match list_panes(&s, None) {
        Response::Panes { panes } => assert!(panes[0].focused),
        other => panic!("unexpected {other:?}"),
    }
}

#[test]
fn block_to_entry_drops_blank_commands_and_running_exit_codes() {
    let e = block_to_entry(&block("x", "  \n", "out", false), 9);
    assert_eq!(e.command, None);
    assert_eq!(e.exit_code, None);
    assert_eq!(e.pane_id, 9);
    let e = block_to_entry(&block("y", "make", "out", true), 9);
    assert_eq!(e.command.as_deref(), Some("make"));
    assert_eq!(e.exit_code, Some(2));
}

#[test]
fn read_pane_returns_the_last_blocks_in_order() {
    match read_pane(&state(), Some(3), 2) {
        Response::PaneOutput { pane, blocks } => {
            assert_eq!(pane, 3);
            let ids: Vec<&str> = blocks.iter().map(|b| b.id.as_str()).collect();
            assert_eq!(ids, vec!["c2", "c3"]);
        }
        other => panic!("unexpected {other:?}"),
    }
    match list_blocks(&state(), None, 10) {
        Response::Blocks { blocks } => assert_eq!(blocks.len(), 3),
        other => panic!("unexpected {other:?}"),
    }
    assert_eq!(error_text(&read_pane(&state(), Some(8), 1)), "pane 8 not found");
}

#[test]
fn read_screen_returns_screen_text() {
    match read_screen(&state(), Some(1)) {
        Response::Screen { pane, alt_screen, text } => {
            assert_eq!(pane, 1);
            assert!(!alt_screen);
            assert_eq!(text, "screen of 1");
        }
        other => panic!("unexpected {other:?}"),
    }
}

#[test]
fn read_block_searches_every_pane() {
    match read_block(&state(), "b2") {
        Response::Block { block } => {
            assert_eq!(block.pane_id, 2);
            assert_eq!(block.output, "hidden");
        }
        other => panic!("unexpected {other:?}"),
    }
    assert_eq!(error_text(&read_block(&state(), "zz")), "block zz not found");
    assert_eq!(error_text(&read_block(&empty_state(), "b1")), "no active workspace");
}

#[test]
fn snapshot_truncates_and_describes_the_pane() {
    let snap = collect_pane_snapshot(&state(), Some(3), 2, true, 3, "now".to_string())
        .ok()
        .unwrap();
    assert_eq!(snap.schema_version, 1);
    assert_eq!(snap.captured_at, "now");
    assert_eq!(snap.pane.id, 3);
    assert_eq!(snap.pane.tab_id, 200);
    assert_eq!(snap.pane.tab_index, 1);
    assert!(!snap.pane.focused);
    let screen = snap.screen.unwrap();
    assert_eq!(screen.text, "f 3");
    assert!(screen.text_truncated);
    assert_eq!(snap.blocks.len(), 2);
    assert_eq!(snap.blocks[0].output, "22");
    assert!(!snap.blocks[0].output_truncated);
    assert_eq!(snap.blocks[1].output, "333");
    assert!(snap.blocks[1].output_truncated);
}

#[test]
fn snapshot_of_a_hidden_pane_uses_a_bare_description() {
    let snap = collect_pane_snapshot(&state(), Some(2), 1, false, 0, "t".to_string())
        .ok()
        .unwrap();
    assert_eq!(snap.pane.id, 2);
    assert_eq!(snap.pane.tab_id, 0);
    assert_eq!(snap.pane.cwd.as_deref(), Some("/p2"));
    assert!(snap.screen.is_none());
    assert_eq!(snap.blocks[0].output, "hidden");
}

#[test]
fn tab_handlers_find_tabs_by_id_or_index() {
    let (r, a) = focus_tab(&state(), 200);
    assert!(matches!(r, Response::Success));
    assert!(matches!(a, ControlAction::ActivateTab(1)));
    let (_, a) = close_tab(&state(), 0);
    assert!(matches!(a, ControlAction::CloseTab(0)));
    let (r, a) = focus_tab(&state(), 7);
    assert_eq!(error_text(&r), "tab 7 not found");
    assert!(matches!(a, ControlAction::Nothing));
    let (r, _) = close_tab(&empty_state(), 0);
    assert_eq!(error_text(&r), "no active workspace");
}

#[test]
fn pane_handlers_name_the_owning_tab() {
    let (r, a) = focus_pane(&state(), 3);
    assert!(matches!(r, Response::Success));
    assert!(matches!(a, ControlAction::FocusPane { tab: 1, pane: 3 }));
    let (_, a) = close_pane(&state(), 2);
    assert!(matches!(a, ControlAction::ClosePane { tab: 0, pane: 2 }));
    let (r, _) = close_pane(&state(), 44);
    assert_eq!(error_text(&r), "pane 44 not found");
    let (r, _) = focus_pane(&empty_state(), 1);
    assert_eq!(error_text(&r), "no active workspace");
    let (_, a) = split_pane(&state(), None, SplitDir::Left);
    assert!(matches!(a, ControlAction::SplitPane { pane: 3, direction: SplitDir::Left }));
}

#[test]
fn write_and_keystroke_send_bytes() {
    let (r, a) = write_bytes(&state(), Some(1), b"hi".to_vec());
    assert!(matches!(r, Response::Success));
    match a {
        ControlAction::WritePty { pane, bytes } => {
            assert_eq!(pane, 1);
            assert_eq!(bytes, b"hi".to_vec());
        }
        _ => panic!("expected a write"),
    }
    match keystroke(&state(), None, "ctrl-c").1 {
        ControlAction::WritePty { pane, bytes } => {
            assert_eq!(pane, 3);
            assert_eq!(bytes, vec![3]);
        }
        _ => panic!("expected a write"),
    }
    let (r, a) = keystroke(&state(), None, "hyper");
    assert_eq!(error_text(&r), "unknown key: \"hyper\"");
    assert!(matches!(a, ControlAction::Nothing));
    let (r, _) = keystroke(&empty_state(), None, "enter");
    assert_eq!(error_text(&r), "no pane specified and no focused pane found");
}

#[test]
fn sharing_flow() {
    let mut s = state();
    let (r, a) = share_pane(&s, Some(1), ShareScrollback::All);
    assert!(matches!(r, Response::ShareStarted { pane: 1 }));
    assert!(matches!(a, ControlAction::StartSharing { pane: 1, scrollback: ShareScrollback::All }));
    assert_eq!(
        error_text(&share_pane_link(&s, Some(1))),
        "pane 1 is not sharing; run pane share first"
    );
    let (r, _) = unshare_pane(&s, Some(1));
    assert_eq!(error_text(&r), "pane 1 is not sharing");

    s.workspace.as_mut().unwrap().tabs[0].panes[0].share_role = ShareRole::Sharer;
    let (r, a) = share_pane(&s, Some(1), ShareScrollback::Nothing);
    assert!(matches!(r, Response::ShareStarted { pane: 1 }));
    assert!(matches!(a, ControlAction::Nothing));
    assert!(matches!(share_pane_link(&s, Some(1)), Response::SharePending { pane: 1 }));
    s.workspace.as_mut().unwrap().tabs[0].panes[0].share_link = Some("https://x/y".to_string());
    match share_pane_link(&s, Some(1)) {
        Response::ShareLink { pane, url } => {
            assert_eq!(pane, 1);
            assert_eq!(url, "https://x/y");
        }
        other => panic!("unexpected {other:?}"),
    }
    let (r, a) = unshare_pane(&s, Some(1));
    assert!(matches!(r, Response::ShareStopped { pane: 1 }));
    assert!(matches!(a, ControlAction::StopSharing { pane: 1 }));

    s.workspace.as_mut().unwrap().tabs[0].panes[0].share_role = ShareRole::Viewer;
    let (r, _) = share_pane(&s, Some(1), ShareScrollback::All);
    assert_eq!(error_text(&r), "pane 1 is viewing a shared session");
}

#[test]
fn new_tab_opens_known_configs_only() {
    let (r, a) = new_tab(&state(), None);
    assert!(matches!(r, Response::Success));
    assert!(matches!(a, ControlAction::AddTerminalTab));
    match new_tab(&state(), Some("Dev".to_string())).1 {
        ControlAction::OpenTabConfig(name) => assert_eq!(name, "Dev"),
        _ => panic!("expected a config"),
    }
    let (r, _) = new_tab(&state(), Some("Prod".to_string()));
    assert_eq!(
        error_text(&r),
        "no tab config named \"Prod\". Available: SSH: box, Dev"
    );
    let mut s = state();
    s.tab_configs.clear();
    let (r, _) = new_tab(&s, Some("Prod".to_string()));
    assert_eq!(error_text(&r), "no tab config named \"Prod\". Available: (none)");
    let (r, _) = new_tab(&empty_state(), None);
    assert_eq!(error_text(&r), "no active workspace");
}

#[test]
fn submit_outcomes() {
    let ok = submit_outcome(3, CommandExecutionResult::Executed, Some("blk".to_string()));
    let c = ok.ok().unwrap();
    assert_eq!(c.pane, 3);
    assert_eq!(c.block_id, "blk");
    let e = submit_outcome(3, CommandExecutionResult::Executed, None).err().unwrap();
    assert_eq!(error_text(&e), "command executed but no block id was captured");
    let e = submit_outcome(
        3,
        CommandExecutionResult::Blocked(DenyExecutionReason::ExistingActiveCommand),
        None,
    )
    .err()
    .unwrap();
    assert_eq!(
        error_text(&e),
        "pane cannot execute commands while another command is already running"
    );
    let e = submit_outcome(3, CommandExecutionResult::NotExecuted, None).err().unwrap();
    assert_eq!(error_text(&e), "command was not executed");
    assert!(matches!(
        send_input_response(submit_outcome(3, CommandExecutionResult::Executed, Some("b".to_string()))),
        Response::Success
    ));
    assert_eq!(
        deny_execution_message(DenyExecutionReason::NotBootstrapped),
        "pane is not ready to execute commands yet because shell bootstrapping is still in progress"
    );
    assert_eq!(
        deny_execution_message(DenyExecutionReason::HistoryNotAppendable),
        "pane cannot execute commands because its history is not appendable"
    );
}

#[test]
fn poll_reports_done_running_and_missing_blocks() {
    assert!(matches!(poll_submitted_block(&state(), 3, "c2"), BlockWaitPoll::Done(b) if b.id == "c2"));
    assert!(matches!(poll_submitted_block(&state(), 3, "c3"), BlockWaitPoll::Running(b) if b.output == "333333"));
    match poll_submitted_block(&state(), 3, "nope") {
        BlockWaitPoll::Error(e) => assert_eq!(error_text(&e), "block nope not found"),
        _ => panic!("expected an error"),
    }
    match poll_submitted_block(&state(), 8, "c2") {
        BlockWaitPoll::Error(e) => assert_eq!(error_text(&e), "pane 8 not found"),
        _ => panic!("expected an error"),
    }
}

#[test]
fn dispatch_routes_requests() {
    let s = state();
    assert!(matches!(
        dispatch(&s, Request::Ping, String::new()),
        Dispatched::Reply(Response::Pong, ControlAction::Nothing)
    ));
    match dispatch(
        &s,
        Request::SendInput { pane: None, text: "ls".to_string(), wait: true, timeout_ms: Some(5) },
        String::new(),
    ) {
        Dispatched::Submit { pane, text, wait, timeout_ms } => {
            assert_eq!(pane, 3);
            assert_eq!(text, "ls");
            assert!(wait);
            assert_eq!(timeout_ms, Some(5));
        }
        _ => panic!("expected a submit"),
    }
    match dispatch(
        &s,
        Request::SendInput { pane: Some(99), text: "ls".to_string(), wait: false, timeout_ms: None },
        String::new(),
    ) {
        Dispatched::Reply(r, ControlAction::Nothing) => assert_eq!(error_text(&r), "pane 99 not found"),
        _ => panic!("expected an error"),
    }
    match dispatch(
        &s,
        Request::SnapshotPane { pane: Some(1), blocks: 1, include_screen: false, max_output_bytes: 0, json: true },
        "when".to_string(),
    ) {
        Dispatched::Reply(Response::PaneSnapshot { snapshot, json }, _) => {
            assert!(json);
            assert_eq!(snapshot.captured_at, "when");
            assert!(snapshot.pane.focused == false);
        }
        _ => panic!("expected a snapshot"),
    }
    match dispatch(&s, Request::FocusTab { tab: 0 }, String::new()) {
        Dispatched::Reply(Response::Success, ControlAction::ActivateTab(0)) => {}
        _ => panic!("expected a tab focus"),
    }
    assert!(matches!(
        dispatch(&s, Request::ReadBlock { block: "b1".to_string() }, String::new()),
        Dispatched::Reply(Response::Block { .. }, ControlAction::Nothing)
    ));
}

#[test]
fn invalid_request_names_the_reason() {
    assert_eq!(error_text(&invalid_request("eof")), "invalid request: eof");
}

#[test]
fn listed_ids_can_be_used_again() {
    let s = state();
    if let Response::Tabs { tabs } = list_tabs(&s) {
        for t in tabs {
            assert!(matches!(focus_tab(&s, t.id).0, Response::Success));
        }
    }
    if let Response::Panes { panes } = list_panes(&s, None) {
        for p in panes {
            assert!(matches!(focus_pane(&s, p.id).0, Response::Success));
        }
    }
    if let Response::Blocks { blocks } = list_blocks(&s, Some(3), 50) {
        for b in blocks {
            assert!(matches!(read_block(&s, &b.id), Response::Block { .. }));
        }
    }
}
