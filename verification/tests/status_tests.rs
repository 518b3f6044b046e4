use term_overlay::terminal::TerminalOverlay;
use term_overlay::terminal::TerminalOverlayOpen;
use term_overlay::terminal::TerminalStatus;

fn overlay() -> TerminalOverlay {
    TerminalOverlay::new(TerminalOverlayOpen {
        call_id: "exec-1".to_string(),
        command: vec!["ls".to_string()],
        cwd: "/".to_string(),
        session_id: None,
        started_at: 0,
    })
}

#[test]
fn status_follows_the_lifecycle() {
    let mut o = overlay();
    assert_eq!(o.status(), TerminalStatus::Running);
    o.mark_finished(3, false, "", 100);
    assert_eq!(o.status(), TerminalStatus::Exited(3));
}

#[test]
fn status_reports_timeout() {
    let mut o = overlay();
    o.mark_finished(1, true, "", 100);
    assert_eq!(o.status(), TerminalStatus::TimedOut);
}
