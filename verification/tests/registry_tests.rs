use term_overlay::registry::InteractiveExecHandle;
use term_overlay::registry::SessionState;

fn handle(token: u32, session: &str) -> InteractiveExecHandle<u32> {
    InteractiveExecHandle::new(Some(token), session.to_string())
}

#[test]
fn registry_insert_lookup_remove() {
    let mut state: SessionState<u32> = SessionState::new();
    state.insert_interactive_exec("call-1".to_string(), handle(7, "s1"));
    state.insert_interactive_exec("call-2".to_string(), handle(8, "s2"));

    let found = state.interactive_exec_handle("call-1").expect("registered");
    assert_eq!(found.session_id, "s1");
    assert!(state.interactive_exec_handle("call-3").is_none());

    let removed = state.remove_interactive_exec("call-1").expect("registered");
    assert_eq!(removed.session_id, "s1");
    assert!(state.interactive_exec_handle("call-1").is_none());
    assert!(state.remove_interactive_exec("call-1").is_none());
}

#[test]
fn registry_insert_overwrites_same_id() {
    let mut state: SessionState<u32> = SessionState::new();
    state.insert_interactive_exec("call-1".to_string(), handle(7, "old"));
    state.insert_interactive_exec("call-1".to_string(), handle(9, "new"));
    let found = state.interactive_exec_handle("call-1").expect("registered");
    assert_eq!(found.session_id, "new");
    assert_eq!(state.interactive_execs.len(), 1);
}

#[test]
fn registry_drain_returns_all_and_empties() {
    let mut state: SessionState<u32> = SessionState::new();
    state.insert_interactive_exec("a".to_string(), handle(1, "sa"));
    state.insert_interactive_exec("b".to_string(), handle(2, "sb"));
    let drained = state.drain_interactive_execs();
    assert_eq!(drained.len(), 2);
    assert_eq!(drained[0].session_id, "sa");
    assert_eq!(drained[1].session_id, "sb");
    assert_eq!(state.interactive_execs.len(), 0);
}

#[test]
fn kill_takes_the_capability_exactly_once() {
    let mut h = handle(42, "s");
    assert_eq!(h.kill(), Some(42));
    // Every later attempt is a no-op.
    assert_eq!(h.kill(), None);
    assert_eq!(h.kill(), None);
    assert_eq!(h.session_id, "s");
}

#[test]
fn kill_after_lookup_keeps_registration() {
    let mut state: SessionState<u32> = SessionState::new();
    state.insert_interactive_exec("call-1".to_string(), handle(5, "s"));
    let removed = state.remove_interactive_exec("call-1").expect("registered");
    let mut owned = removed;
    assert_eq!(owned.kill(), Some(5));
    // Kill and forget are independent: re-register the killed handle.
    state.insert_interactive_exec("call-1".to_string(), owned);
    let again = state.interactive_exec_handle("call-1").expect("registered");
    assert!(again.killer.is_none());
}
