use term_overlay::events::TuiEvent;
use term_overlay::keys::KeyCode;
use term_overlay::keys::KeyEvent;
use term_overlay::keys::KeyEventKind;
use term_overlay::live_buffer::ExecOutputStream;
use term_overlay::pager::Rect;
use term_overlay::terminal::TerminalOverlay;
use term_overlay::terminal::TerminalOverlayOpen;
use term_overlay::terminal::TERMINAL_AUTO_CLOSE_DELAY_MS;

fn open_params(call_id: &str, command: &[&str]) -> TerminalOverlayOpen {
    TerminalOverlayOpen {
        call_id: call_id.to_string(),
        command: command.iter().map(|s| s.to_string()).collect(),
        cwd: "/work".to_string(),
        session_id: None,
        started_at: 1_000,
    }
}

fn overlay() -> TerminalOverlay {
    TerminalOverlay::new(open_params("exec-1", &["bash", "-lc", "ls"]))
}

fn ctrl(c: char) -> KeyEvent {
    KeyEvent {
        code: KeyCode::Char(c),
        ctrl: true,
        alt: false,
        shift: false,
        kind: KeyEventKind::Press,
    }
}

fn alt(code: KeyCode) -> KeyEvent {
    KeyEvent {
        code,
        ctrl: false,
        alt: true,
        shift: false,
        kind: KeyEventKind::Press,
    }
}

#[test]
fn key_encoding_plain_char_is_utf8() {
    let bytes = TerminalOverlay::key_event_to_bytes(KeyEvent::press(KeyCode::Char('a')));
    assert_eq!(bytes, Some(vec![0x61]));
}

#[test]
fn key_encoding_multibyte_char_is_utf8() {
    let bytes = TerminalOverlay::key_event_to_bytes(KeyEvent::press(KeyCode::Char('é')));
    assert_eq!(bytes, Some(vec![0xc3, 0xa9]));
}

#[test]
fn key_encoding_ctrl_a_is_0x01() {
    assert_eq!(TerminalOverlay::key_event_to_bytes(ctrl('a')), Some(vec![0x01]));
    // Upper case is lowered first: Ctrl+A is the same byte.
    assert_eq!(TerminalOverlay::key_event_to_bytes(ctrl('A')), Some(vec![0x01]));
}

#[test]
fn key_encoding_ctrl_question_is_del() {
    assert_eq!(TerminalOverlay::key_event_to_bytes(ctrl('?')), Some(vec![0x7f]));
}

#[test]
fn key_encoding_up_arrow_and_alt_prefix() {
    assert_eq!(
        TerminalOverlay::key_event_to_bytes(KeyEvent::press(KeyCode::Up)),
        Some(vec![0x1b, b'[', b'A'])
    );
    assert_eq!(
        TerminalOverlay::key_event_to_bytes(alt(KeyCode::Up)),
        Some(vec![0x1b, 0x1b, b'[', b'A'])
    );
}

#[test]
fn key_encoding_named_keys() {
    assert_eq!(
        TerminalOverlay::key_event_to_bytes(KeyEvent::press(KeyCode::Enter)),
        Some(vec![b'\r'])
    );
    assert_eq!(
        TerminalOverlay::key_event_to_bytes(KeyEvent::press(KeyCode::Backspace)),
        Some(vec![0x7f])
    );
    assert_eq!(
        TerminalOverlay::key_event_to_bytes(KeyEvent::press(KeyCode::Tab)),
        Some(vec![b'\t'])
    );
    assert_eq!(
        TerminalOverlay::key_event_to_bytes(KeyEvent::press(KeyCode::Delete)),
        Some(vec![0x1b, b'[', b'3', b'~'])
    );
}

#[test]
fn key_encoding_function_keys() {
    assert_eq!(
        TerminalOverlay::key_event_to_bytes(KeyEvent::press(KeyCode::F(1))),
        Some(vec![0x1b, b'O', b'P'])
    );
    assert_eq!(
        TerminalOverlay::key_event_to_bytes(KeyEvent::press(KeyCode::F(5))),
        Some(vec![0x1b, b'[', b'1', b'5', b'~'])
    );
    assert_eq!(
        TerminalOverlay::key_event_to_bytes(KeyEvent::press(KeyCode::F(12))),
        Some(vec![0x1b, b'[', b'2', b'4', b'~'])
    );
    assert_eq!(TerminalOverlay::key_event_to_bytes(KeyEvent::press(KeyCode::F(13))), None);
}

#[test]
fn key_encoding_release_produces_nothing() {
    let released = KeyEvent {
        code: KeyCode::Char('a'),
        ctrl: false,
        alt: false,
        shift: false,
        kind: KeyEventKind::Release,
    };
    assert_eq!(TerminalOverlay::key_event_to_bytes(released), None);
}

#[test]
fn command_display_is_shell_quoted() {
    let o = TerminalOverlay::new(open_params("exec-1", &["echo", "hi there"]));
    // A word with a space is quoted, so the display is not the plain join.
    assert_eq!(o.command_display, "echo 'hi there'");
}

#[test]
fn command_display_falls_back_on_nul() {
    let o = TerminalOverlay::new(open_params("exec-1", &["echo", "a\u{0}b"]));
    assert_eq!(o.command_display, "echo a\u{0}b");
}

#[test]
fn end_to_end_stream_then_snapshot_replacement() {
    let mut o = overlay();
    o.push_chunk(ExecOutputStream::Stdout, b"hello\n");
    o.push_chunk(ExecOutputStream::Stderr, b"oops");
    assert_eq!(o.lines, vec!["hello".to_string()]);
    assert_eq!(o.pending_line, "oops");

    // The snapshot has more lines than the committed scrollback: it
    // replaces it wholesale and clears the pending partial line.
    o.mark_finished(1, false, "hello\noops\n", 2_000);
    assert_eq!(o.lines, vec!["hello".to_string(), "oops".to_string()]);
    assert_eq!(o.pending_line, "");
    assert_eq!(o.exit_code, Some(1));
}

#[test]
fn mark_finished_keeps_longer_scrollback() {
    let mut o = overlay();
    o.push_chunk(ExecOutputStream::Stdout, b"one\ntwo\nthree\n");
    o.mark_finished(0, false, "only\n", 2_000);
    assert_eq!(
        o.lines,
        vec!["one".to_string(), "two".to_string(), "three".to_string()]
    );
}

#[test]
fn push_chunk_normalizes_carriage_returns() {
    let mut o = overlay();
    o.push_chunk(ExecOutputStream::Stdout, b"a\r\nb\rc");
    assert_eq!(o.lines, vec!["a".to_string(), "".to_string(), "b".to_string()]);
    assert_eq!(o.pending_line, "c");
}

#[test]
fn push_chunk_merges_pending_across_chunks() {
    let mut o = overlay();
    o.push_chunk(ExecOutputStream::Stdout, b"par");
    o.push_chunk(ExecOutputStream::Stdout, b"tial\nrest");
    assert_eq!(o.lines, vec!["partial".to_string()]);
    assert_eq!(o.pending_line, "rest");
}

#[test]
fn lifecycle_finish_render_then_auto_close() {
    let mut o = overlay();
    assert!(o.exit_code.is_none());
    o.mark_finished(0, false, "", 10_000);
    assert_eq!(o.exit_code, Some(0));
    assert!(!o.is_done());

    // Before any render the overlay never auto-closes.
    assert_eq!(o.after_event(10_000 + TERMINAL_AUTO_CLOSE_DELAY_MS), Some(100));
    assert!(!o.is_done());

    // One render after finishing arms the auto-close.
    o.render(Rect::new(0, 0, 80, 24));
    assert!(o.rendered_after_finish);

    // Before the delay elapses it stays open and asks for a re-poll.
    assert_eq!(o.after_event(10_100), Some(100));
    assert!(!o.is_done());

    // Once the delay has elapsed the next check closes it.
    assert_eq!(o.after_event(10_000 + TERMINAL_AUTO_CLOSE_DELAY_MS), None);
    assert!(o.is_done());
}

#[test]
fn escape_closes_at_any_state() {
    let mut o = overlay();
    o.handle_key_event(KeyEvent::press(KeyCode::Esc));
    assert!(o.is_done());
}

#[test]
fn enter_closes_only_once_finished() {
    let mut o = overlay();
    let sent = o.handle_key_event(KeyEvent::press(KeyCode::Enter));
    // While running, Enter is forwarded to the process instead.
    assert_eq!(sent, Some(vec![b'\r']));
    assert!(!o.is_done());
    o.mark_finished(0, false, "", 1_500);
    let sent = o.handle_key_event(KeyEvent::press(KeyCode::Enter));
    assert_eq!(sent, None);
    assert!(o.is_done());
}

#[test]
fn bytes_are_dropped_once_finished() {
    let mut o = overlay();
    o.mark_finished(0, false, "", 1_500);
    let sent = o.handle_key_event(KeyEvent::press(KeyCode::Char('x')));
    assert_eq!(sent, None);
}

#[test]
fn resize_is_debounced() {
    let mut o = overlay();
    let first = o.render(Rect::new(0, 0, 80, 24));
    // Content rows: 24 minus two header and two footer rows.
    assert_eq!(first.resize, Some((20, 80)));
    let second = o.render(Rect::new(0, 0, 80, 24));
    assert_eq!(second.resize, None);
    let third = o.render(Rect::new(0, 0, 90, 24));
    assert_eq!(third.resize, Some((20, 90)));
}

#[test]
fn no_resize_after_finish() {
    let mut o = overlay();
    o.mark_finished(0, false, "", 1_500);
    let frame = o.render(Rect::new(0, 0, 80, 24));
    assert_eq!(frame.resize, None);
}

#[test]
fn paste_forwards_utf8_bytes_while_running() {
    let mut o = overlay();
    let resp = o.handle_event(
        TuiEvent::Paste("hi".to_string()),
        Rect::new(0, 0, 80, 24),
        1_100,
    );
    assert_eq!(resp.write_bytes, Some(vec![b'h', b'i']));

    o.mark_finished(0, false, "", 1_500);
    let resp = o.handle_event(
        TuiEvent::Paste("hi".to_string()),
        Rect::new(0, 0, 80, 24),
        1_600,
    );
    assert_eq!(resp.write_bytes, None);
}

#[test]
fn overlay_follows_bottom_during_stream() {
    let mut o = overlay();
    for i in 0..50 {
        o.push_chunk(ExecOutputStream::Stdout, format!("line{i}\n").as_bytes());
    }
    // A draw clamps the offset to the bottom page.
    let frame = o.render(Rect::new(0, 0, 20, 10));
    let (start, end) = frame.page.expect("content area exists");
    assert_eq!(end - start, 6);
    assert_eq!(end, 50);
    assert!(o.view.is_scrolled_to_bottom());
}

#[test]
fn scrollback_is_trimmed_to_cap() {
    let mut o = overlay();
    let mut chunk = Vec::new();
    for i in 0..4100u32 {
        chunk.extend_from_slice(format!("l{i}\n").as_bytes());
    }
    o.push_chunk(ExecOutputStream::Stdout, &chunk);
    assert_eq!(o.lines.len(), 4000);
    assert_eq!(o.lines[0], "l100");
    assert_eq!(o.lines[3999], "l4099");
}

#[test]
fn matches_call_compares_identifiers() {
    let o = overlay();
    assert!(o.matches_call("exec-1"));
    assert!(!o.matches_call("exec-2"));
}
