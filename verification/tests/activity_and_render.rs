use warp_control::activity::{
    first_plain_word, pane_activity, pane_is_running, pane_preview, preview_line_from_blocks,
    preview_line_from_text, strip_command_path, truncate_preview_line, PaneStatus,
};
use warp_control::render::{format_duration_ms, render_response, JsonOutput};
use warp_control::wire::{
    BlockEntry, PaneSummary, Response, TabSummary, TextMatch, TextMatchSource,
};
use warp_control::workspace::{ActiveBlock, BlockRecord, PaneRecord, ShareRole};

fn record(command: &str, output: &str) -> BlockRecord {
    BlockRecord {
        id: "b".to_string(),
        prompt_and_command: command.to_string(),
        command: command.to_string(),
        output: output.to_string(),
        done: true,
        exit_code: 0,
        pwd: None,
        started_at: None,
        completed_at: None,
    }
}

fn pane_with(active: &str, executing: bool, blocks: Vec<BlockRecord>, screen: &str) -> PaneRecord {
    PaneRecord {
        id: 1,
        hidden: false,
        cwd: None,
        alt_screen: false,
        screen_text: screen.to_string(),
        blocks,
        share_role: ShareRole::NotShared,
        share_link: None,
        bootstrapped: true,
        active_block: ActiveBlock {
            command: active.to_string(),
            executing,
            started: false,
            done: false,
        },
    }
}

#[test]
fn preview_line_squeezes_whitespace_and_shortens() {
    assert_eq!(truncate_preview_line("  a   b\tc ", 60), "a b c");
    assert_eq!(truncate_preview_line("abcdefghij", 8), "abcde...");
    assert_eq!(truncate_preview_line("abcdefghij", 10), "abcdefghij");
    assert_eq!(truncate_preview_line("abcdef", 2), "...");
    assert_eq!(truncate_preview_line("ééééé", 4), "é...");
}

#[test]
fn preview_takes_the_last_non_blank_line() {
    assert_eq!(preview_line_from_text("one\ntwo\n\n  \n").as_deref(), Some("two"));
    assert_eq!(preview_line_from_text("only").as_deref(), Some("only"));
    assert_eq!(preview_line_from_text("\r\n  \n"), None);
    assert_eq!(preview_line_from_text(""), None);
    let long = "x".repeat(70);
    assert_eq!(
        preview_line_from_text(&long).unwrap(),
        format!("{}...", "x".repeat(57))
    );
}

#[test]
fn preview_prefers_newest_block_output_then_command() {
    let blocks = vec![record("old cmd", "old out"), record("new cmd", "  ")];
    assert_eq!(preview_line_from_blocks(&blocks).as_deref(), Some("new cmd"));
    let blocks = vec![record("cmd", "out 1"), record("", "")];
    assert_eq!(preview_line_from_blocks(&blocks).as_deref(), Some("out 1"));
    assert_eq!(preview_line_from_blocks(&vec![]), None);
}

#[test]
fn pane_preview_falls_back_to_the_screen() {
    let p = pane_with("", false, vec![], "prompt $");
    assert_eq!(pane_preview(&p).as_deref(), Some("prompt $"));
    let mut p = pane_with("", false, vec![record("make", "built")], "prompt $");
    assert_eq!(pane_preview(&p).as_deref(), Some("built"));
    p.alt_screen = true;
    assert_eq!(pane_preview(&p).as_deref(), Some("prompt $"));
}

#[test]
fn running_and_foreground_process() {
    let idle = pane_with("", false, vec![], "");
    assert!(!pane_is_running(&idle, true));
    let busy = pane_with("FOO=1 /usr/bin/vim notes", true, vec![], "");
    assert!(pane_is_running(&busy, false));
    let a = pane_activity(&busy, false, None);
    assert!(a.running);
    assert_eq!(a.status, PaneStatus::Running);
    assert_eq!(a.foreground_process.as_deref(), Some("vim"));
    assert_eq!(a.preview, None);
    let a = pane_activity(&busy, true, Some("/opt/bin/htop".to_string()));
    assert_eq!(a.foreground_process.as_deref(), Some("htop"));
    let a = pane_activity(&idle, true, Some("x".to_string()));
    assert_eq!(a.status, PaneStatus::Idle);
    assert_eq!(a.foreground_process, None);
    let mut booting = idle;
    booting.bootstrapped = false;
    assert!(pane_is_running(&booting, true));
}

#[test]
fn first_plain_word_skips_assignments() {
    assert_eq!(first_plain_word("A=1 B=2 cargo test").as_deref(), Some("cargo"));
    assert_eq!(first_plain_word("A=1"), None);
    assert_eq!(first_plain_word("   "), None);
}

#[test]
fn strip_command_path_keeps_the_file_name() {
    assert_eq!(strip_command_path("/usr/bin/vim".to_string()), "vim");
    assert_eq!(strip_command_path("git".to_string()), "git");
    assert_eq!(strip_command_path("..".to_string()), "..");
    assert_eq!(strip_command_path("dir/".to_string()), "dir");
}

#[test]
fn duration_formatting() {
    assert_eq!(format_duration_ms(5_000), "5s");
    assert_eq!(format_duration_ms(0), "0s");
    assert_eq!(format_duration_ms(1_500), "1500ms");
}

#[test]
fn render_simple_responses() {
    let r = render_response(&Response::Pong);
    assert_eq!(r.text, "pong\n");
    assert_eq!(r.json, JsonOutput::Nothing);
    assert_eq!(r.error, None);
    assert_eq!(render_response(&Response::Success).text, "ok\n");
    let r = render_response(&Response::ShareStarted { pane: 4 });
    assert_eq!(r.text, "sharing started for pane 4 (pending)\n");
    let r = render_response(&Response::Error { message: "boom".to_string() });
    assert_eq!(r.text, "");
    assert_eq!(r.error.as_deref(), Some("boom"));
}

#[test]
fn render_tables() {
    let r = render_response(&Response::Tabs { tabs: vec![] });
    assert_eq!(r.text, "(no tabs)\n");
    let r = render_response(&Response::Tabs {
        tabs: vec![TabSummary { id: 7, index: 0, title: None, active: true, pane_ids: vec![1, 2] }],
    });
    assert_eq!(
        r.text,
        "TAB      INDEX  ACTIVE     PANES\n7        0      yes        1,2\n"
    );
    let r = render_response(&Response::Panes {
        panes: vec![PaneSummary {
            id: 3,
            tab_id: 7,
            tab_index: 0,
            title: None,
            cwd: None,
            focused: false,
        }],
    });
    assert_eq!(
        r.text,
        "PANE       TAB      INDEX  FOCUSED  CWD\n3          7        0               -\n"
    );
}

#[test]
fn render_block_and_timeouts() {
    let block = BlockEntry {
        id: "b1".to_string(),
        pane_id: 2,
        command: Some("ls".to_string()),
        output: "a\nb\n\n".to_string(),
        output_truncated: false,
        exit_code: Some(1),
        pwd: Some("/tmp".to_string()),
        started_at: None,
        completed_at: None,
    };
    let r = render_response(&Response::Block { block });
    assert_eq!(r.text, "--- block b1 (pane 2) ---\npwd: /tmp\n$ ls\na\nb\n(exit 1)\n");
    let r = render_response(&Response::WaitForTextTimedOut {
        pane: 9,
        timeout_ms: 2_000,
        elapsed_ms: 2_001,
        snapshot: None,
        json: true,
    });
    assert_eq!(r.json, JsonOutput::TimedOut);
    assert_eq!(r.error.as_deref(), Some("text did not appear in pane 9 after 2s"));
}

#[test]
fn render_text_match() {
    let r = render_response(&Response::WaitForTextMatched {
        pane: 3,
        elapsed_ms: 250,
        matched: TextMatch {
            source: TextMatchSource::Screen,
            pane_id: 3,
            block_id: None,
            text: "ready".to_string(),
            line: Some("ready now".to_string()),
        },
        snapshot: None,
        json: false,
    });
    assert!(r.text.ends_with("ready now\n"));
    assert_eq!(r.error, None);
}
