use term_overlay::events::TuiEvent;
use term_overlay::keys::KeyCode;
use term_overlay::keys::KeyEvent;
use term_overlay::keys::KeyEventKind;
use term_overlay::overlay::Overlay;
use term_overlay::overlay::StaticOverlay;
use term_overlay::overlay::TranscriptCell;
use term_overlay::overlay::TranscriptOverlay;
use term_overlay::pager::Rect;
use term_overlay::terminal::TerminalOverlayOpen;

fn cellv(lines: &[&str]) -> TranscriptCell {
    TranscriptCell::new(lines.iter().map(|s| s.to_string()).collect())
}

fn area() -> Rect {
    Rect::new(0, 0, 40, 12)
}

#[test]
fn transcript_q_dismisses() {
    let mut overlay = TranscriptOverlay::new(vec![cellv(&["hello"])]);
    assert!(!overlay.is_done());
    overlay.handle_event(TuiEvent::Key(KeyEvent::press(KeyCode::Char('q'))), area());
    assert!(overlay.is_done());
}

#[test]
fn transcript_ctrl_c_dismisses() {
    let mut overlay = TranscriptOverlay::new(vec![cellv(&["hello"])]);
    let key = KeyEvent {
        code: KeyCode::Char('c'),
        ctrl: true,
        alt: false,
        shift: false,
        kind: KeyEventKind::Press,
    };
    overlay.handle_event(TuiEvent::Key(key), area());
    assert!(overlay.is_done());
}

#[test]
fn transcript_scroll_keys_move_view() {
    let mut overlay = TranscriptOverlay::new(
        (0..30).map(|i| cellv(&[&format!("line{i}")])).collect(),
    );
    overlay.handle_event(TuiEvent::Draw, area());
    let at_bottom = overlay.view.scroll_offset;
    overlay.handle_event(TuiEvent::Key(KeyEvent::press(KeyCode::Up)), area());
    assert_eq!(overlay.view.scroll_offset, at_bottom - 1);
    overlay.handle_event(TuiEvent::Key(KeyEvent::press(KeyCode::Home)), area());
    assert_eq!(overlay.view.scroll_offset, 0);
    overlay.handle_event(TuiEvent::Key(KeyEvent::press(KeyCode::End)), area());
    assert_eq!(overlay.view.scroll_offset, usize::MAX);
}

#[test]
fn transcript_separators_between_cells() {
    let overlay = TranscriptOverlay::new(vec![cellv(&["a"]), cellv(&["b"])]);
    // The second chunk is preceded by a blank separator line.
    assert_eq!(overlay.view.texts.len(), 2);
    assert_eq!(overlay.view.texts[0], vec!["a".to_string()]);
    assert_eq!(overlay.view.texts[1], vec!["".to_string(), "b".to_string()]);
}

#[test]
fn transcript_stream_continuation_has_no_separator() {
    let mut cont = cellv(&["b"]);
    cont.stream_continuation = true;
    let overlay = TranscriptOverlay::new(vec![cellv(&["a"]), cont]);
    assert_eq!(overlay.view.texts[1], vec!["b".to_string()]);
}

#[test]
fn transcript_highlight_requests_scroll_into_view() {
    let mut overlay = TranscriptOverlay::new(
        (0..30).map(|i| cellv(&[&format!("line{i}")])).collect(),
    );
    overlay.handle_event(TuiEvent::Draw, area());
    overlay.set_highlight_cell(Some(3));
    assert_eq!(overlay.view.pending_scroll_chunk, Some(3));
    overlay.handle_event(TuiEvent::Draw, area());
    assert_eq!(overlay.view.pending_scroll_chunk, None);
}

#[test]
fn static_overlay_starts_at_top_and_quits() {
    let mut overlay = StaticOverlay::with_title(
        vec!["one".to_string(), "two".to_string(), "three".to_string()],
        "S T A T I C".to_string(),
    );
    assert_eq!(overlay.view.scroll_offset, 0);
    assert_eq!(overlay.view.title, "S T A T I C");
    overlay.handle_event(TuiEvent::Draw, area());
    overlay.handle_event(TuiEvent::Key(KeyEvent::press(KeyCode::Char('q'))), area());
    assert!(overlay.is_done());
}

#[test]
fn static_overlay_space_pages_down() {
    let lines: Vec<String> = (0..40).map(|i| format!("l{i}")).collect();
    let mut overlay = StaticOverlay::with_title(lines, "T".to_string());
    overlay.handle_event(TuiEvent::Draw, area());
    // Page height is the content height: 12 minus 3 hint rows minus 2.
    overlay.handle_event(TuiEvent::Key(KeyEvent::press(KeyCode::Char(' '))), area());
    assert_eq!(overlay.view.scroll_offset, 7);
}

#[test]
fn overlay_enum_dispatches_events_and_done() {
    let mut transcript = Overlay::new_transcript(vec![cellv(&["x"])]);
    assert!(!transcript.is_done());
    transcript.handle_event(
        TuiEvent::Key(KeyEvent::press(KeyCode::Char('q'))),
        area(),
        0,
    );
    assert!(transcript.is_done());

    let mut stat = Overlay::new_static_with_title(vec!["x".to_string()], "T".to_string());
    stat.handle_event(TuiEvent::Key(KeyEvent::press(KeyCode::Char('q'))), area(), 0);
    assert!(stat.is_done());

    let mut term = Overlay::new_terminal(TerminalOverlayOpen {
        call_id: "exec-1".to_string(),
        command: vec!["ls".to_string()],
        cwd: "/".to_string(),
        session_id: None,
        started_at: 0,
    });
    assert!(!term.is_done());
    term.handle_event(TuiEvent::Key(KeyEvent::press(KeyCode::Esc)), area(), 5);
    assert!(term.is_done());
}
