use warp_control::cli::{
    build_request, parse_id, BlockCommand, BlockIdArg, BlockListArgs, ControlCommand,
    KeystrokeArgs, PaneCommand, PaneListArgs, PaneSnapshotArgs, SendInputArgs, TabCommand,
    TabIdArg, TabNewArgs, WaitForTextArgs, WaitForTextBlockField, WaitForTextMode,
    WaitForTextSince,
};
use warp_control::framing::{decode_frame, encode_frame, frame_length, FrameError, MAX_FRAME_BYTES};
use warp_control::wire::{
    Request, WaitForTextBlockField as WireField, WaitForTextMode as WireMode,
    WaitForTextSince as WireSince,
};

#[test]
fn frame_round_trips_body_and_reports_consumed_bytes() {
    let body = br#"{"kind":"ping"}"#;
    let frame = encode_frame(body).unwrap();
    assert_eq!(&frame[..4], &[0, 0, 0, body.len() as u8]);
    let mut buf = frame.clone();
    buf.extend_from_slice(b"trailing");
    let (decoded, used) = decode_frame(&buf).unwrap();
    assert_eq!(decoded, body.to_vec());
    assert_eq!(used, frame.len());
}

#[test]
fn frame_header_is_big_endian() {
    assert_eq!(frame_length([0, 0, 1, 2]), Ok(258));
    assert_eq!(frame_length([0, 1, 0, 0]), Ok(65_536));
}

#[test]
fn frame_length_rejects_zero_and_oversized() {
    assert_eq!(frame_length([0, 0, 0, 0]), Err(FrameError::InvalidLength(0)));
    let over = (MAX_FRAME_BYTES as u32) + 1;
    assert_eq!(frame_length(over.to_be_bytes()), Err(FrameError::InvalidLength(over)));
    assert_eq!(
        frame_length((MAX_FRAME_BYTES as u32).to_be_bytes()),
        Ok(MAX_FRAME_BYTES)
    );
}

#[test]
fn decode_frame_reports_truncation() {
    assert_eq!(decode_frame(&[0, 0]), Err(FrameError::Truncated));
    assert_eq!(decode_frame(&[0, 0, 0, 3, b'a']), Err(FrameError::Truncated));
}

#[test]
fn encode_frame_rejects_oversized_body() {
    let body = vec![0u8; MAX_FRAME_BYTES + 1];
    assert_eq!(encode_frame(&body), Err(FrameError::TooLarge(MAX_FRAME_BYTES + 1)));
}

#[test]
fn frame_error_messages() {
    assert_eq!(FrameError::InvalidLength(0).message(), "invalid frame length: 0");
    assert_eq!(FrameError::TooLarge(20).message(), "frame too large: 20 bytes");
    assert_eq!(FrameError::Truncated.message(), "frame truncated");
}

#[test]
fn parse_id_accepts_numbers_and_names_bad_ids() {
    assert_eq!(parse_id("42", "tab").unwrap(), 42);
    assert_eq!(parse_id("+7", "pane").unwrap(), 7);
    let err = parse_id("abc", "pane").unwrap_err();
    assert_eq!(err.message, "pane id must be a number, got \"abc\"");
    let err = parse_id("18446744073709551616", "tab").unwrap_err();
    assert_eq!(
        err.message,
        "tab id must be a number, got \"18446744073709551616\""
    );
}

#[test]
fn printed_ids_parse_back() {
    for n in [0u64, 9, 10, 12345, u64::MAX] {
        assert_eq!(parse_id(&n.to_string(), "tab").unwrap(), n);
    }
}

#[test]
fn build_request_joins_send_words_and_converts_timeout() {
    let cmd = ControlCommand::Pane(PaneCommand::Send(SendInputArgs {
        pane: Some("5".to_string()),
        wait: true,
        timeout: Some(3),
        command: vec!["ls".to_string(), "-la".to_string(), "/tmp".to_string()],
    }));
    match build_request(cmd).unwrap() {
        Request::SendInput { pane, text, wait, timeout_ms } => {
            assert_eq!(pane, Some(5));
            assert_eq!(text, "ls -la /tmp");
            assert!(wait);
            assert_eq!(timeout_ms, Some(3000));
        }
        other => panic!("unexpected request {other:?}"),
    }
}

#[test]
fn build_request_saturates_huge_timeouts() {
    let cmd = ControlCommand::Pane(PaneCommand::Send(SendInputArgs {
        pane: None,
        wait: true,
        timeout: Some(u64::MAX / 10),
        command: vec!["true".to_string()],
    }));
    match build_request(cmd).unwrap() {
        Request::SendInput { timeout_ms, .. } => assert_eq!(timeout_ms, Some(u64::MAX)),
        other => panic!("unexpected request {other:?}"),
    }
}

#[test]
fn build_request_reports_bad_tab_id() {
    let cmd = ControlCommand::Tab(TabCommand::Close(TabIdArg { id: "x1".to_string() }));
    let err = build_request(cmd).unwrap_err();
    assert_eq!(err.message, "tab id must be a number, got \"x1\"");
}

#[test]
fn build_request_reports_bad_pane_filter() {
    let cmd = ControlCommand::Pane(PaneCommand::List(PaneListArgs {
        tab: Some("-1".to_string()),
    }));
    let err = build_request(cmd).unwrap_err();
    assert_eq!(err.message, "tab id must be a number, got \"-1\"");
}

#[test]
fn build_request_maps_simple_commands() {
    assert!(matches!(
        build_request(ControlCommand::Tab(TabCommand::List)).unwrap(),
        Request::ListTabs
    ));
    match build_request(ControlCommand::Tab(TabCommand::New(TabNewArgs {
        config: Some("SSH".to_string()),
    })))
    .unwrap()
    {
        Request::NewTab { config } => assert_eq!(config.as_deref(), Some("SSH")),
        other => panic!("unexpected request {other:?}"),
    }
    match build_request(ControlCommand::Block(BlockCommand::Read(BlockIdArg {
        id: "b-9".to_string(),
    })))
    .unwrap()
    {
        Request::ReadBlock { block } => assert_eq!(block, "b-9"),
        other => panic!("unexpected request {other:?}"),
    }
    match build_request(ControlCommand::Block(BlockCommand::List(BlockListArgs {
        pane: Some("3".to_string()),
        limit: 4,
    })))
    .unwrap()
    {
        Request::ListBlocks { pane, limit } => {
            assert_eq!(pane, Some(3));
            assert_eq!(limit, 4);
        }
        other => panic!("unexpected request {other:?}"),
    }
    match build_request(ControlCommand::Pane(PaneCommand::Keystroke(KeystrokeArgs {
        pane: None,
        key: "ctrl-c".to_string(),
    })))
    .unwrap()
    {
        Request::Keystroke { pane, key } => {
            assert_eq!(pane, None);
            assert_eq!(key, "ctrl-c");
        }
        other => panic!("unexpected request {other:?}"),
    }
}

#[test]
fn build_request_snapshot_includes_screen_unless_disabled() {
    let cmd = ControlCommand::Pane(PaneCommand::Snapshot(PaneSnapshotArgs {
        pane: None,
        blocks: 5,
        no_screen: true,
        max_output_bytes: 65_536,
        json: false,
    }));
    match build_request(cmd).unwrap() {
        Request::SnapshotPane { include_screen, blocks, max_output_bytes, json, .. } => {
            assert!(!include_screen);
            assert_eq!(blocks, 5);
            assert_eq!(max_output_bytes, 65_536);
            assert!(!json);
        }
        other => panic!("unexpected request {other:?}"),
    }
}

#[test]
fn build_request_wait_for_text_converts_seconds() {
    let cmd = ControlCommand::Pane(PaneCommand::WaitForText(WaitForTextArgs {
        pane: Some("123".to_string()),
        regex: true,
        timeout: 30,
        mode: WaitForTextMode::Screen,
        case_insensitive: true,
        since: WaitForTextSince::Now,
        blocks: 10,
        block_field: WaitForTextBlockField::Both,
        max_output_bytes: 99,
        json: true,
        text: "READY|DONE".to_string(),
    }));
    match build_request(cmd).unwrap() {
        Request::WaitForText {
            pane,
            text,
            regex,
            timeout_ms,
            mode,
            case_insensitive,
            since,
            blocks,
            block_field,
            max_output_bytes,
            json,
        } => {
            assert_eq!(pane, Some(123));
            assert_eq!(text, "READY|DONE");
            assert!(regex);
            assert_eq!(timeout_ms, 30_000);
            assert_eq!(mode, WireMode::Screen);
            assert!(case_insensitive);
            assert_eq!(since, WireSince::Now);
            assert_eq!(blocks, 10);
            assert_eq!(block_field, WireField::Both);
            assert_eq!(max_output_bytes, 99);
            assert!(json);
        }
        other => panic!("unexpected request {other:?}"),
    }
}
