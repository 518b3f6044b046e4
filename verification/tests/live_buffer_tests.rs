use term_overlay::live_buffer::ExecOutputStream;
use term_overlay::live_buffer::LiveCommandOutput;
use term_overlay::live_buffer::LiveStreamTail;
use term_overlay::live_buffer::LIVE_STREAM_TAIL_CAP_BYTES;

#[test]
fn tail_keeps_everything_under_the_cap() {
    let mut tail = LiveStreamTail::default();
    tail.push(b"hello ");
    tail.push(b"world");
    assert_eq!(tail.as_string(), "hello world");
}

#[test]
fn tail_retains_most_recent_suffix_over_many_pushes() {
    let mut tail = LiveStreamTail::default();
    // 3 pushes of 3000 bytes exceed the 8 KiB cap by 808 bytes.
    tail.push(&[b'a'; 3000]);
    tail.push(&[b'b'; 3000]);
    tail.push(&[b'c'; 3000]);
    let s = tail.as_string();
    assert_eq!(s.len(), LIVE_STREAM_TAIL_CAP_BYTES);
    let expected: String = std::iter::repeat('a')
        .take(2192)
        .chain(std::iter::repeat('b').take(3000))
        .chain(std::iter::repeat('c').take(3000))
        .collect();
    assert_eq!(s, expected);
}

#[test]
fn tail_single_oversized_push_keeps_the_end() {
    let mut tail = LiveStreamTail::default();
    let mut big = vec![b'x'; 9000];
    big[9000 - LIVE_STREAM_TAIL_CAP_BYTES] = b'y';
    tail.push(&big);
    let s = tail.as_string();
    assert_eq!(s.len(), LIVE_STREAM_TAIL_CAP_BYTES);
    assert!(s.starts_with('y'));
}

#[test]
fn tail_clear_empties() {
    let mut tail = LiveStreamTail::default();
    tail.push(b"data");
    tail.clear();
    assert_eq!(tail.as_string(), "");
}

#[test]
fn tail_decode_replaces_invalid_utf8() {
    let mut tail = LiveStreamTail::default();
    tail.push(&[b'o', b'k', 0xff]);
    assert_eq!(tail.as_string(), "ok\u{FFFD}");
}

#[test]
fn live_output_routes_by_stream() {
    let mut live = LiveCommandOutput::default();
    live.append(ExecOutputStream::Stdout, b"out");
    live.append(ExecOutputStream::Stderr, b"err");
    assert_eq!(live.stdout.as_string(), "out");
    assert_eq!(live.stderr.as_string(), "err");
}

#[test]
fn live_output_empty_snapshot_is_none() {
    let live = LiveCommandOutput::default();
    assert!(live.to_command_output().is_none());
}

#[test]
fn live_output_snapshot_exists_for_invalid_bytes() {
    // A non-empty buffer yields a snapshot even when every byte is invalid
    // UTF-8: the decode replaces rather than drops.
    let mut live = LiveCommandOutput::default();
    live.append(ExecOutputStream::Stdout, &[0xff]);
    let out = live.to_command_output().expect("non-empty buffer");
    assert_eq!(out.stdout, "\u{FFFD}");
}

#[test]
fn live_output_snapshot_guesses_exit_from_last_stream() {
    let mut live = LiveCommandOutput::default();
    live.append(ExecOutputStream::Stdout, b"out");
    let ok = live.to_command_output().expect("some output");
    assert_eq!(ok.exit_code, 0);
    assert_eq!(ok.stdout, "out");
    assert_eq!(ok.stderr, "");
    assert_eq!(ok.formatted_output, "");

    live.append(ExecOutputStream::Stderr, b"err");
    let bad = live.to_command_output().expect("some output");
    assert_eq!(bad.exit_code, 1);
    assert_eq!(bad.stderr, "err");
}
