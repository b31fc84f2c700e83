use warp_control::wait::{
    block_search_text, elapsed_ms, find_text_match, send_wait_step, start_wait,
    text_after_baseline, wait_for_text_step, BlockWaitPoll, WaitForTextBaseline,
    WaitForTextOptions, WaitStep,
};
use warp_control::wire::{
    BlockEntry, PaneScreenSnapshot, PaneSnapshot, PaneSnapshotPane, Response, TextMatchSource,
    WaitForTextBlockField, WaitForTextMode, WaitForTextSince,
};

fn entry(id: &str, command: Option<&str>, output: &str) -> BlockEntry {
    BlockEntry {
        id: id.to_string(),
        pane_id: 3,
        command: command.map(ToOwned::to_owned),
        output: output.to_string(),
        output_truncated: false,
        exit_code: Some(0),
        pwd: None,
        started_at: None,
        completed_at: None,
    }
}

fn snap(screen: Option<&str>, blocks: Vec<BlockEntry>) -> PaneSnapshot {
    PaneSnapshot {
        schema_version: 1,
        captured_at: "t".to_string(),
        pane: PaneSnapshotPane {
            id: 3,
            tab_id: 30,
            tab_index: 1,
            title: None,
            cwd: None,
            focused: false,
        },
        screen: screen.map(|t| PaneScreenSnapshot {
            alt_screen: true,
            text: t.to_string(),
            text_truncated: false,
        }),
        blocks,
    }
}

fn options(text: &str) -> WaitForTextOptions {
    WaitForTextOptions {
        pane: Some(3),
        text: text.to_string(),
        regex: false,
        timeout_ms: 1_000,
        mode: WaitForTextMode::Both,
        case_insensitive: false,
        since: WaitForTextSince::All,
        blocks: 5,
        block_field: WaitForTextBlockField::Output,
        max_output_bytes: 4,
        json: false,
    }
}

fn error_text(r: &Response) -> &str {
    match r {
        Response::Error { message } => message,
        other => panic!("expected an error, got {other:?}"),
    }
}

#[test]
fn start_wait_rejects_empty_text() {
    let err = start_wait(&options("")).err().unwrap();
    assert_eq!(error_text(&err), "text must not be empty");
}

#[test]
fn start_wait_rejects_invalid_regex() {
    let mut o = options("(unclosed");
    o.regex = true;
    let err = start_wait(&o).err().unwrap();
    assert!(error_text(&err).starts_with("invalid regex: "));
    assert!(error_text(&err).len() > "invalid regex: ".len());
}

#[test]
fn start_wait_plans_snapshots_by_mode() {
    let mut o = options("x");
    o.mode = WaitForTextMode::Screen;
    o.since = WaitForTextSince::Now;
    let plan = start_wait(&o).ok().unwrap();
    assert!(plan.include_screen);
    assert_eq!(plan.blocks, 0);
    assert!(plan.take_baseline);

    o.mode = WaitForTextMode::Blocks;
    o.since = WaitForTextSince::All;
    o.regex = true;
    o.text = "a|b".to_string();
    let plan = start_wait(&o).ok().unwrap();
    assert!(!plan.include_screen);
    assert_eq!(plan.blocks, 5);
    assert!(!plan.take_baseline);
}

#[test]
fn block_search_text_by_field() {
    let b = entry("b", Some("make"), "done");
    assert_eq!(block_search_text(&b, WaitForTextBlockField::Output), "done");
    assert_eq!(block_search_text(&b, WaitForTextBlockField::Command), "make");
    assert_eq!(block_search_text(&b, WaitForTextBlockField::Both), "make\ndone");
    let quiet = entry("q", Some("true"), "");
    assert_eq!(block_search_text(&quiet, WaitForTextBlockField::Both), "true");
    let no_cmd = entry("n", None, "out");
    assert_eq!(block_search_text(&no_cmd, WaitForTextBlockField::Command), "");
    assert_eq!(block_search_text(&no_cmd, WaitForTextBlockField::Both), "out");
}

#[test]
fn text_after_baseline_only_strips_a_matching_prefix() {
    assert_eq!(
        text_after_baseline("old\nnew", Some("old\n"), WaitForTextSince::Now),
        "new"
    );
    assert_eq!(
        text_after_baseline("changed", Some("old"), WaitForTextSince::Now),
        "changed"
    );
    assert_eq!(
        text_after_baseline("old\nnew", Some("old\n"), WaitForTextSince::All),
        "old\nnew"
    );
    assert_eq!(text_after_baseline("abc", None, WaitForTextSince::Now), "abc");
}

#[test]
fn baseline_from_snapshot_records_screen_and_blocks() {
    let s = snap(
        Some("screen"),
        vec![entry("a", Some("ls"), "x"), entry("b", None, "y")],
    );
    let base = WaitForTextBaseline::from_snapshot(&s, WaitForTextBlockField::Both);
    assert_eq!(base.screen_text.as_deref(), Some("screen"));
    assert_eq!(base.block_text("a"), Some("ls\nx"));
    assert_eq!(base.block_text("b"), Some("y"));
    assert_eq!(base.block_text("c"), None);
}

#[test]
fn baseline_lookup_takes_the_last_entry_for_an_id() {
    let base = WaitForTextBaseline {
        screen_text: None,
        block_text_by_id: vec![
            ("a".to_string(), "first".to_string()),
            ("a".to_string(), "second".to_string()),
        ],
    };
    assert_eq!(base.block_text("a"), Some("second"));
}

#[test]
fn unchanged_pane_gives_no_match_since_now() {
    let s = snap(
        Some("ready\n$ "),
        vec![entry("a", Some("echo ready"), "ready"), entry("b", None, "ready too")],
    );
    let mut o = options("ready");
    o.since = WaitForTextSince::Now;
    o.block_field = WaitForTextBlockField::Both;
    let base = WaitForTextBaseline::from_snapshot(&s, o.block_field);
    assert!(find_text_match(&s, &o, &base).is_none());
    o.since = WaitForTextSince::All;
    assert!(find_text_match(&s, &o, &base).is_some());
}

#[test]
fn blocks_are_searched_newest_first() {
    let s = snap(
        None,
        vec![entry("old", None, "hit one"), entry("new", None, "hit two")],
    );
    let m = find_text_match(&s, &options("hit"), &WaitForTextBaseline::default()).unwrap();
    assert_eq!(m.source, TextMatchSource::Block);
    assert_eq!(m.block_id.as_deref(), Some("new"));
    assert_eq!(m.line.as_deref(), Some("hit two"));
    assert_eq!(m.pane_id, 3);
}

#[test]
fn screen_is_searched_before_blocks() {
    let s = snap(Some("hit screen"), vec![entry("b", None, "hit block")]);
    let m = find_text_match(&s, &options("hit"), &WaitForTextBaseline::default()).unwrap();
    assert_eq!(m.source, TextMatchSource::Screen);
    assert_eq!(m.block_id, None);
}

#[test]
fn wait_step_matches_with_truncated_json_snapshot() {
    let s = snap(Some("xxxx ready"), vec![]);
    let mut o = options("ready");
    o.json = true;
    match wait_for_text_step(&o, &WaitForTextBaseline::default(), s, 250) {
        WaitStep::Reply(Response::WaitForTextMatched { pane, elapsed_ms, matched, snapshot, json }) => {
            assert_eq!(pane, 3);
            assert_eq!(elapsed_ms, 250);
            assert_eq!(matched.text, "ready");
            assert!(json);
            let screen = snapshot.unwrap().screen.unwrap();
            assert_eq!(screen.text, "eady");
            assert!(screen.text_truncated);
        }
        _ => panic!("expected a match"),
    }
}

#[test]
fn wait_step_polls_until_the_timeout() {
    let o = options("missing");
    match wait_for_text_step(&o, &WaitForTextBaseline::default(), snap(Some("x"), vec![]), 10) {
        WaitStep::PollAfter(ms) => assert_eq!(ms, 100),
        _ => panic!("expected another poll"),
    }
    match wait_for_text_step(&o, &WaitForTextBaseline::default(), snap(Some("x"), vec![]), 960) {
        WaitStep::PollAfter(ms) => assert_eq!(ms, 40),
        _ => panic!("expected another poll"),
    }
    match wait_for_text_step(&o, &WaitForTextBaseline::default(), snap(Some("x"), vec![]), 1_000) {
        WaitStep::Reply(Response::WaitForTextTimedOut { pane, timeout_ms, elapsed_ms, snapshot, json }) => {
            assert_eq!(pane, 3);
            assert_eq!(timeout_ms, 1_000);
            assert_eq!(elapsed_ms, 1_000);
            assert!(snapshot.is_none());
            assert!(!json);
        }
        _ => panic!("expected a timeout"),
    }
}

#[test]
fn send_wait_step_outcomes() {
    match send_wait_step(4, None, BlockWaitPoll::Done(entry("b", None, "o")), 5) {
        WaitStep::Reply(Response::Block { block }) => assert_eq!(block.id, "b"),
        _ => panic!("expected the block"),
    }
    match send_wait_step(4, None, BlockWaitPoll::Running(entry("b", None, "o")), 119_990) {
        WaitStep::PollAfter(ms) => assert_eq!(ms, 10),
        _ => panic!("expected another poll"),
    }
    match send_wait_step(4, None, BlockWaitPoll::Running(entry("b", None, "o")), 0) {
        WaitStep::PollAfter(ms) => assert_eq!(ms, 50),
        _ => panic!("expected another poll"),
    }
    match send_wait_step(4, Some(2_000), BlockWaitPoll::Running(entry("b", None, "o")), 2_000) {
        WaitStep::Reply(Response::SendTimedOut { pane, timeout_ms, block }) => {
            assert_eq!(pane, 4);
            assert_eq!(timeout_ms, 2_000);
            assert_eq!(block.id, "b");
        }
        _ => panic!("expected a timeout"),
    }
    let gone = Response::Error { message: "pane 4 not found".to_string() };
    match send_wait_step(4, None, BlockWaitPoll::Error(gone), 0) {
        WaitStep::Reply(r) => assert_eq!(error_text(&r), "pane 4 not found"),
        _ => panic!("expected the error"),
    }
}

#[test]
fn elapsed_ms_saturates() {
    assert_eq!(elapsed_ms(1_500), 1_500);
    assert_eq!(elapsed_ms(u128::from(u64::MAX) + 1), u64::MAX);
}
