use term_overlay::exec_cell::ExecCall;
use term_overlay::exec_cell::ExecCell;
use term_overlay::exec_cell::ParsedCommand;
use term_overlay::live_buffer::CommandOutput;
use term_overlay::live_buffer::ExecOutputStream;
use term_overlay::live_buffer::LiveCommandOutput;

fn call(id: &str, parsed: Vec<ParsedCommand>, start_ms: u64) -> ExecCall {
    ExecCall {
        call_id: id.to_string(),
        command: vec!["bash".to_string()],
        parsed,
        output: None,
        start_time: Some(start_ms),
        duration: None,
        live_output: LiveCommandOutput::default(),
    }
}

fn ok_output(stdout: &str) -> CommandOutput {
    CommandOutput {
        exit_code: 0,
        stdout: stdout.to_string(),
        stderr: String::new(),
        formatted_output: String::new(),
    }
}

fn read_cmd() -> ParsedCommand {
    ParsedCommand::Read {
        name: "file.txt".to_string(),
    }
}

fn unknown_cmd() -> ParsedCommand {
    ParsedCommand::Unknown {
        cmd: "make".to_string(),
    }
}

#[test]
fn try_append_refuses_non_exploratory_candidate() {
    let cell = ExecCell::new(call("a", vec![read_cmd()], 0));
    let refused = cell.with_added_call(
        "b".to_string(),
        vec!["make".to_string()],
        vec![unknown_cmd()],
        5,
    );
    assert!(refused.is_none());
    // The cell itself is unchanged.
    assert_eq!(cell.iter_calls().len(), 1);
    assert_eq!(cell.iter_calls()[0].call_id, "a");
}

#[test]
fn try_append_refuses_when_cell_not_exploratory() {
    let cell = ExecCell::new(call("a", vec![unknown_cmd()], 0));
    let refused = cell.with_added_call(
        "b".to_string(),
        vec!["ls".to_string()],
        vec![ParsedCommand::ListFiles {
            cmd: "ls".to_string(),
        }],
        5,
    );
    assert!(refused.is_none());
}

#[test]
fn try_append_refuses_empty_parse() {
    let cell = ExecCell::new(call("a", vec![read_cmd()], 0));
    let refused = cell.with_added_call("b".to_string(), vec!["x".to_string()], vec![], 5);
    assert!(refused.is_none());
}

#[test]
fn try_append_extends_exploratory_cell() {
    let cell = ExecCell::new(call("a", vec![read_cmd()], 0));
    let grown = cell
        .with_added_call(
            "b".to_string(),
            vec!["rg".to_string()],
            vec![ParsedCommand::Search {
                query: "pattern".to_string(),
            }],
            7,
        )
        .expect("both exploratory");
    assert_eq!(grown.iter_calls().len(), 2);
    assert_eq!(grown.iter_calls()[1].call_id, "b");
    assert_eq!(grown.iter_calls()[1].start_time, Some(7));
    assert!(grown.iter_calls()[1].output.is_none());
}

#[test]
fn complete_finalizes_later_of_two_open_calls_sharing_id() {
    let mut cell = ExecCell::new(call("dup", vec![read_cmd()], 0));
    let grown = cell
        .with_added_call(
            "dup".to_string(),
            vec!["cat".to_string()],
            vec![read_cmd()],
            3,
        )
        .expect("exploratory");
    cell = grown;
    cell.complete_call("dup", ok_output("done"), 42);
    // The later-appended call is finalized; the earlier remains open.
    assert!(cell.iter_calls()[0].output.is_none());
    assert!(cell.iter_calls()[0].start_time.is_some());
    let later = &cell.iter_calls()[1];
    assert_eq!(later.output.as_ref().map(|o| o.stdout.clone()), Some("done".to_string()));
    assert_eq!(later.duration, Some(42));
    assert!(later.start_time.is_none());
}

#[test]
fn complete_skips_already_completed_calls() {
    let mut cell = ExecCell::new(call("dup", vec![read_cmd()], 0));
    cell = cell
        .with_added_call("dup".to_string(), vec!["cat".to_string()], vec![read_cmd()], 1)
        .expect("exploratory");
    cell = cell
        .with_added_call("dup".to_string(), vec!["cat".to_string()], vec![read_cmd()], 2)
        .expect("exploratory");
    // The first completion finalizes the most recent open call (the third).
    cell.complete_call("dup", ok_output("third"), 30);
    // The second must skip it and finalize the second call, not overwrite
    // the third's record.
    cell.complete_call("dup", ok_output("second"), 20);
    assert_eq!(
        cell.iter_calls()[2].output.as_ref().map(|o| o.stdout.clone()),
        Some("third".to_string())
    );
    assert_eq!(cell.iter_calls()[2].duration, Some(30));
    assert_eq!(
        cell.iter_calls()[1].output.as_ref().map(|o| o.stdout.clone()),
        Some("second".to_string())
    );
    // The earliest call remains open.
    assert!(cell.iter_calls()[0].output.is_none());
}

#[test]
fn complete_is_a_no_op_when_only_match_is_completed() {
    let mut cell = ExecCell::new(call("a", vec![read_cmd()], 0));
    cell.complete_call("a", ok_output("first"), 10);
    // The identifier now has no open call: a late duplicate completion
    // changes nothing.
    cell.complete_call("a", ok_output("late"), 99);
    assert_eq!(
        cell.iter_calls()[0].output.as_ref().map(|o| o.stdout.clone()),
        Some("first".to_string())
    );
    assert_eq!(cell.iter_calls()[0].duration, Some(10));
}

#[test]
fn complete_with_stale_id_is_a_no_op() {
    let mut cell = ExecCell::new(call("a", vec![read_cmd()], 0));
    cell.complete_call("missing", ok_output(""), 1);
    assert!(cell.iter_calls()[0].output.is_none());
}

#[test]
fn append_live_chunk_routes_to_last_open_match() {
    let mut cell = ExecCell::new(call("a", vec![read_cmd()], 0));
    assert!(cell.append_live_chunk("a", ExecOutputStream::Stdout, b"x"));
    assert_eq!(cell.iter_calls()[0].live_output.stdout.as_string(), "x");
    // A stale identifier reports false and changes nothing.
    assert!(!cell.append_live_chunk("zz", ExecOutputStream::Stdout, b"y"));
    // A completed call no longer receives chunks.
    cell.complete_call("a", ok_output(""), 1);
    assert!(!cell.append_live_chunk("a", ExecOutputStream::Stdout, b"y"));
}

#[test]
fn complete_clears_live_buffer() {
    let mut cell = ExecCell::new(call("a", vec![read_cmd()], 0));
    cell.append_live_chunk("a", ExecOutputStream::Stdout, b"live");
    cell.complete_call("a", ok_output("final"), 9);
    assert_eq!(cell.iter_calls()[0].live_output.stdout.as_string(), "");
}

#[test]
fn mark_failed_synthesizes_failures_for_open_calls() {
    let mut cell = ExecCell::new(call("a", vec![read_cmd()], 100));
    let grown = cell
        .with_added_call("b".to_string(), vec!["cat".to_string()], vec![read_cmd()], 250)
        .expect("exploratory");
    cell = grown;
    cell.complete_call("a", ok_output("ok"), 5);
    cell.mark_failed(400);
    let done = &cell.iter_calls()[0];
    assert_eq!(done.output.as_ref().map(|o| o.exit_code), Some(0));
    let failed = &cell.iter_calls()[1];
    assert_eq!(failed.output.as_ref().map(|o| o.exit_code), Some(1));
    assert_eq!(failed.output.as_ref().map(|o| o.stdout.clone()), Some(String::new()));
    assert_eq!(failed.duration, Some(150));
    assert!(failed.start_time.is_none());
}

#[test]
fn flush_and_activity_predicates() {
    let mut cell = ExecCell::new(call("a", vec![unknown_cmd()], 11));
    assert!(cell.is_active());
    assert!(!cell.is_exploring_cell());
    assert!(!cell.should_flush());
    assert_eq!(cell.active_start_time(), Some(11));
    cell.complete_call("a", ok_output(""), 2);
    assert!(!cell.is_active());
    assert!(cell.should_flush());
    assert_eq!(cell.active_start_time(), None);

    // An exploratory cell never flushes through this predicate.
    let mut explore = ExecCell::new(call("e", vec![read_cmd()], 0));
    explore.complete_call("e", ok_output(""), 1);
    assert!(!explore.should_flush());
}
