use term_overlay::overlay::TranscriptCell;
use term_overlay::overlay::TranscriptOverlay;
use term_overlay::pager::PagerView;
use term_overlay::pager::Rect;

fn long_chunk(line: &str) -> Vec<String> {
    vec![line.to_string()]
}

#[test]
fn transcript_overlay_keeps_scroll_pinned_at_bottom() {
    let mut overlay = TranscriptOverlay::new(
        (0..20)
            .map(|i| TranscriptCell::new(vec![format!("line{i}")]))
            .collect(),
    );
    overlay.render(Rect::new(0, 0, 40, 12));

    assert!(
        overlay.view.is_scrolled_to_bottom(),
        "expected initial render to leave view at bottom"
    );

    overlay.insert_cell(TranscriptCell::new(vec!["tail".to_string()]));

    assert_eq!(overlay.view.scroll_offset, usize::MAX);
}

#[test]
fn transcript_overlay_preserves_manual_scroll_position() {
    let mut overlay = TranscriptOverlay::new(
        (0..20)
            .map(|i| TranscriptCell::new(vec![format!("line{i}")]))
            .collect(),
    );
    overlay.render(Rect::new(0, 0, 40, 12));

    overlay.view.scroll_offset = 0;

    overlay.insert_cell(TranscriptCell::new(vec!["tail".to_string()]));

    assert_eq!(overlay.view.scroll_offset, 0);
}

#[test]
fn pager_wrap_cache_reuses_for_same_width_and_rebuilds_on_change() {
    let long = "This is a long line that should wrap multiple times to ensure non-empty wrapped output.";
    let mut pv = PagerView::new(
        vec![long_chunk(long), long_chunk(long)],
        "T".to_string(),
        0,
    );

    // Build cache at width 24
    pv.ensure_wrapped(24);
    let w1 = pv.cached();
    assert!(!w1.is_empty(), "expected wrapped output to be non-empty");
    let ptr1 = w1.as_ptr();

    // Re-run with same width: cache should be reused (pointer stability heuristic)
    pv.ensure_wrapped(24);
    let w2 = pv.cached();
    let ptr2 = w2.as_ptr();
    assert_eq!(ptr1, ptr2, "cache should not rebuild for unchanged width");

    // Change width: cache should rebuild and likely produce different length
    let prev_len = w2.len();
    pv.ensure_wrapped(36);
    let w3 = pv.cached();
    assert_ne!(
        prev_len,
        w3.len(),
        "wrapped length should change on width change"
    );
}

#[test]
fn pager_wrap_cache_invalidates_on_append() {
    let long = "Another long line for wrapping behavior verification.";
    let mut pv = PagerView::new(vec![long_chunk(long)], "T".to_string(), 0);
    pv.ensure_wrapped(28);
    let len1 = pv.cached().len();

    // Append new lines should cause ensure_wrapped to rebuild due to len change
    pv.texts.push(long_chunk(long));
    pv.texts.push(long_chunk(long));
    pv.ensure_wrapped(28);
    let w2 = pv.cached();
    assert!(
        w2.len() >= len1,
        "wrapped length should grow or stay same after append"
    );
}

#[test]
fn wrap_breaks_at_last_space_within_budget() {
    let mut pv = PagerView::new(vec![vec!["alpha beta gamma".to_string()]], "T".to_string(), 0);
    pv.ensure_wrapped(10);
    let rows: Vec<String> = pv.cached().clone();
    assert_eq!(rows, vec!["alpha beta".to_string(), "gamma".to_string()]);
}

#[test]
fn wrap_hard_breaks_unbroken_runs() {
    let mut pv = PagerView::new(vec![vec!["abcdefghij".to_string()]], "T".to_string(), 0);
    pv.ensure_wrapped(4);
    let rows: Vec<String> = pv.cached().clone();
    assert_eq!(
        rows,
        vec!["abcd".to_string(), "efgh".to_string(), "ij".to_string()]
    );
}

#[test]
fn wrap_records_chunk_ranges() {
    let mut pv = PagerView::new(
        vec![
            vec!["one line".to_string()],
            vec!["a much longer second chunk line".to_string()],
        ],
        "T".to_string(),
        0,
    );
    pv.ensure_wrapped(16);
    let cache = pv.wrap_cache.as_ref().expect("cache built");
    assert_eq!(cache.chunk_ranges.len(), 2);
    assert_eq!(cache.chunk_ranges[0], (0, 1));
    assert_eq!(cache.chunk_ranges[1].0, 1);
    assert_eq!(cache.chunk_ranges[1].1, cache.wrapped.len());
}

#[test]
fn scroll_percent_is_exact() {
    let lines: Vec<String> = (0..12).map(|i| format!("l{i}")).collect();
    let mut pv = PagerView::new(vec![lines], "T".to_string(), 0);
    pv.ensure_wrapped(10);
    // 12 rows, height 2 -> max scroll 10.
    assert_eq!(pv.scroll_percent(2), 0);
    pv.scroll_offset = 5;
    assert_eq!(pv.scroll_percent(2), 50);
    pv.scroll_offset = 10;
    assert_eq!(pv.scroll_percent(2), 100);
    pv.scroll_offset = usize::MAX;
    assert_eq!(pv.scroll_percent(2), 100);
}

#[test]
fn scroll_chunk_into_view_adjusts_minimally() {
    let chunks: Vec<Vec<String>> = (0..10).map(|i| vec![format!("chunk{i}")]).collect();
    let mut pv = PagerView::new(chunks, "T".to_string(), 0);
    // Chunk 9 occupies row 9; viewport height 4 (area height 6 minus
    // header and bottom bar) shows rows 0..4 at first.
    pv.scroll_chunk_into_view(9);
    pv.render(Rect::new(0, 0, 20, 6));
    // Scrolled down just enough: row 9 is the last visible row.
    assert_eq!(pv.scroll_offset, 6);
    // Already visible: no jump.
    pv.scroll_chunk_into_view(7);
    pv.render(Rect::new(0, 0, 20, 6));
    assert_eq!(pv.scroll_offset, 6);
    // Above the top: scroll up to it.
    pv.scroll_chunk_into_view(2);
    pv.render(Rect::new(0, 0, 20, 6));
    assert_eq!(pv.scroll_offset, 2);
}
