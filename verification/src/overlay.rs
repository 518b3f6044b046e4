//! The three overlay kinds and their shared event dispatch.
//!
//! A transcript overlay pages through the session's history cells and
//! follows the bottom as new cells arrive; a static overlay pages through a
//! fixed set of lines under a title; a terminal overlay shows one attached
//! process. They share only "handle an event" and "report done": a closed
//! tagged union with one match per operation.

use vstd::prelude::*;

use crate::events::EventResponse;
use crate::events::TuiEvent;
use crate::keys::KeyCode;
use crate::keys::KeyEvent;
use crate::pager::PagerView;
use crate::pager::Rect;
use crate::pager::is_nav_key;
use crate::pager::nav_offset;
use crate::pager::pager_render_rel;
use crate::pager::sat_sub;
use crate::terminal::TerminalOverlay;
use crate::terminal::TerminalOverlayOpen;
use crate::terminal::terminal_event_rel;

verus! {

/// One history cell of the transcript: its display lines, and whether it
/// continues the previous cell's stream (in which case no blank separator
/// is inserted before it).
#[derive(Debug)]
pub struct TranscriptCell {
    pub lines: Vec<String>,
    pub stream_continuation: bool,
}

impl TranscriptCell {
    /// A standalone cell of the given lines.
    pub fn new(lines: Vec<String>) -> (r: Self)
        ensures
            r.lines == lines,
            !r.stream_continuation,
    {
        TranscriptCell { lines, stream_continuation: false }
    }
}

/// The text chunk one cell contributes: its lines, preceded by a blank
/// separator line unless the cell continues a stream or comes first.
pub open spec fn chunk_of(cell: TranscriptCell, first: bool) -> Seq<Seq<char>> {
    if !cell.stream_continuation && !first {
        seq![Seq::<char>::empty()] + cell.lines.deep_view()
    } else {
        cell.lines.deep_view()
    }
}

/// The chunks all cells contribute, in order.
pub open spec fn chunks_of(cells: Seq<TranscriptCell>) -> Seq<Seq<Seq<char>>> {
    Seq::new(cells.len(), |i: int| chunk_of(cells[i], i == 0))
}

/// Copies the source lines onto the end of `dst`.
fn extend_lines(dst: &mut Vec<String>, src: &Vec<String>)
    ensures
        final(dst)@.len() == old(dst)@.len() + src@.len(),
        final(dst).deep_view() == old(dst).deep_view() + src.deep_view(),
{
    let ghost base = dst.deep_view();
    let ghost base_len = dst@.len();
    let n = src.len();
    let mut j: usize = 0;
    while j < n
        invariant
            j <= n,
            n == src@.len(),
            base.len() == base_len,
            src.deep_view().len() == src@.len(),
            dst@.len() == base_len + j,
            dst.deep_view() == base + src.deep_view().take(j as int),
        decreases n - j,
    {
        let ghost prev_v = dst@;
        let ghost prev_deep = dst.deep_view();
        dst.push(src[j].clone());
        proof {
            assert forall|m: int|
                0 <= m < dst@.len() implies #[trigger] dst.deep_view()[m] == (base
                + src.deep_view().take(j + 1))[m] by {
                assert(base.len() == base_len);
                assert(prev_v.len() == base_len + j);
                assert(dst@.len() == base_len + j + 1);
                assert(src.deep_view().len() == src@.len());
                assert(dst.deep_view()[m] == dst@[m]@);
                if m < prev_v.len() {
                    assert(dst@[m] == prev_v[m]);
                    assert(prev_deep[m] == prev_v[m]@);
                } else {
                    assert(dst@[m] == src@[j as int]);
                    assert(src.deep_view()[j as int] == src@[j as int]@);
                }
            }
            assert(dst.deep_view() =~= base + src.deep_view().take(j + 1));
        }
        j += 1;
    }
    proof {
        assert(src.deep_view().take(n as int) =~= src.deep_view());
    }
}

/// The chunk a cell contributes, as an owned vector of lines.
fn build_chunk(cell: &TranscriptCell, first: bool) -> (r: Vec<String>)
    ensures
        r.deep_view() == chunk_of(*cell, first),
{
    let mut chunk: Vec<String> = Vec::new();
    if !cell.stream_continuation && !first {
        chunk.push(String::new());
    }
    extend_lines(&mut chunk, &cell.lines);
    proof {
        assert(chunk.deep_view() =~~= chunk_of(*cell, first));
    }
    chunk
}

/// The pager chunks of all transcript cells.
fn render_cells_to_texts(cells: &Vec<TranscriptCell>) -> (r: Vec<Vec<String>>)
    ensures
        r.deep_view() == chunks_of(cells@),
{
    let mut texts: Vec<Vec<String>> = Vec::new();
    let n = cells.len();
    let mut i: usize = 0;
    while i < n
        invariant
            i <= n,
            n == cells@.len(),
            texts@.len() == i,
            forall|k: int|
                0 <= k < i ==> #[trigger] texts.deep_view()[k] == chunk_of(cells@[k], k == 0),
        decreases n - i,
    {
        let ghost prev_v = texts@;
        let ghost prev_deep = texts.deep_view();
        let chunk = build_chunk(&cells[i], i == 0);
        texts.push(chunk);
        proof {
            assert forall|k: int|
                0 <= k < i + 1 implies #[trigger] texts.deep_view()[k] == chunk_of(
                cells@[k],
                k == 0,
            ) by {
                assert(texts.deep_view()[k] == texts@[k].deep_view());
                if k < i {
                    assert(texts@[k] == prev_v[k]);
                    assert(prev_deep[k] == prev_v[k].deep_view());
                }
            }
        }
        i += 1;
    }
    proof {
        assert(texts.deep_view() =~~= chunks_of(cells@));
    }
    texts
}

/// Whether a key dismisses the transcript overlay: `q`, Ctrl+`t`, or
/// Ctrl+`c`, each on a press.
pub open spec fn closes_transcript(k: KeyEvent) -> bool {
    ||| (k.code == KeyCode::Char('q') && k.kind is Press)
    ||| (k.code == KeyCode::Char('t') && k.ctrl && !k.alt && !k.shift && k.kind is Press)
    ||| (k.code == KeyCode::Char('c') && k.ctrl && !k.alt && !k.shift && k.kind is Press)
}

/// Whether a key dismisses the static overlay: `q` or Ctrl+`c`, on a press.
pub open spec fn closes_static(k: KeyEvent) -> bool {
    ||| (k.code == KeyCode::Char('q') && k.kind is Press)
    ||| (k.code == KeyCode::Char('c') && k.ctrl && !k.alt && !k.shift && k.kind is Press)
}

/// The pager region of a transcript or static overlay: everything above the
/// three hint rows.
pub open spec fn pager_area(area: Rect) -> Rect {
    Rect { x: area.x, y: area.y, width: area.width, height: sat_sub(area.height as int, 3) as u16 }
}

/// What handling one UI event does to a transcript or static pager overlay:
/// a closing key dismisses it, a scroll key moves the view, a draw renders
/// the pager region, and anything else is ignored.
pub open spec fn pager_event_rel(
    pre_view: PagerView,
    pre_done: bool,
    post_view: PagerView,
    post_done: bool,
    closes: bool,
    event: TuiEvent,
    area: Rect,
    r: EventResponse,
) -> bool {
    &&& r.write_bytes is None
    &&& r.resize is None
    &&& (match event {
        TuiEvent::Key(k) => {
            &&& r.page is None
            &&& (closes ==> post_view == pre_view && post_done && r.schedule_frame_in_ms is None)
            &&& (!closes ==> {
                &&& post_done == pre_done
                &&& (is_nav_key(k) ==> post_view == (PagerView {
                    scroll_offset: nav_offset(
                        k.code,
                        pre_view.scroll_offset as int,
                        PagerView::spec_scroll_area(pager_area(area)).height as int,
                    ) as usize,
                    ..pre_view
                }) && r.schedule_frame_in_ms == Some(16u64))
                &&& (!is_nav_key(k) ==> post_view == pre_view && r.schedule_frame_in_ms is None)
            })
        },
        TuiEvent::Paste(_) => post_view == pre_view && post_done == pre_done && r.page is None
            && r.schedule_frame_in_ms is None,
        TuiEvent::Draw => {
            &&& post_done == pre_done
            &&& r.schedule_frame_in_ms is None
            &&& (match r.page {
                Some(p) => pager_render_rel(pre_view, post_view, pager_area(area), p),
                None => false,
            })
        },
    })
}

/// Overlay over the session transcript: one pager chunk per history cell,
/// following the bottom as cells arrive.
#[derive(Debug)]
pub struct TranscriptOverlay {
    pub view: PagerView,
    pub cells: Vec<TranscriptCell>,
    pub highlight_cell: Option<usize>,
    pub is_done: bool,
}

impl TranscriptOverlay {
    /// A transcript overlay over the given cells, tracking the bottom.
    pub fn new(transcript_cells: Vec<TranscriptCell>) -> (r: Self)
        ensures
            r.view.texts.deep_view() == chunks_of(transcript_cells@),
            r.view.scroll_offset == usize::MAX,
            r.view.wrap_cache is None,
            r.view.last_content_height is None,
            r.view.pending_scroll_chunk is None,
            r.cells == transcript_cells,
            r.highlight_cell is None,
            !r.is_done,
    {
        let texts = render_cells_to_texts(&transcript_cells);
        TranscriptOverlay {
            view: PagerView::new(texts, String::from_str("T R A N S C R I P T"), usize::MAX),
            cells: transcript_cells,
            highlight_cell: None,
            is_done: false,
        }
    }

    /// Appends one cell as a new chunk and invalidates the wrap cache. A
    /// view that was at the bottom re-pins to the bottom sentinel, so new
    /// content keeps it at the bottom; a manually scrolled view keeps its
    /// offset exactly.
    pub fn insert_cell(&mut self, cell: TranscriptCell)
        ensures
            final(self).cells@ == old(self).cells@.push(cell),
            final(self).view.texts.deep_view() == old(self).view.texts.deep_view().push(
                chunk_of(cell, old(self).cells@.len() == 0),
            ),
            final(self).view.wrap_cache is None,
            old(self).view.spec_is_scrolled_to_bottom() ==> final(self).view.scroll_offset
                == usize::MAX && final(self).view.spec_is_scrolled_to_bottom(),
            !old(self).view.spec_is_scrolled_to_bottom() ==> final(self).view.scroll_offset == old(
                self,
            ).view.scroll_offset,
            final(self).view.title == old(self).view.title,
            final(self).view.last_content_height == old(self).view.last_content_height,
            final(self).view.pending_scroll_chunk == old(self).view.pending_scroll_chunk,
            final(self).highlight_cell == old(self).highlight_cell,
            final(self).is_done == old(self).is_done,
    {
        let follow_bottom = self.view.is_scrolled_to_bottom();
        let chunk = build_chunk(&cell, self.cells.len() == 0);
        let ghost prev_texts = self.view.texts.deep_view();
        let ghost prev_texts_len = self.view.texts@.len();
        self.view.texts.push(chunk);
        self.cells.push(cell);
        self.view.wrap_cache = None;
        if follow_bottom {
            self.view.scroll_offset = usize::MAX;
        }
        proof {
            assert forall|m: int|
                0 <= m < self.view.texts@.len() implies #[trigger] self.view.texts.deep_view()[m]
                == prev_texts.push(chunk_of(cell, old(self).cells@.len() == 0))[m] by {
                assert(self.view.texts.deep_view()[m] == self.view.texts@[m].deep_view());
                if m < prev_texts_len {
                    assert(self.view.texts@[m] == old(self).view.texts@[m]);
                    assert(prev_texts[m] == old(self).view.texts@[m].deep_view());
                }
            }
            assert(self.view.texts.deep_view() =~= prev_texts.push(
                chunk_of(cell, old(self).cells@.len() == 0),
            ));
        }
    }

    /// Highlights the given cell (or none), rebuilds the chunks, and asks
    /// the next render to scroll the highlighted cell into view.
    pub fn set_highlight_cell(&mut self, cell: Option<usize>)
        ensures
            final(self).highlight_cell == cell,
            final(self).view.wrap_cache is None,
            final(self).view.texts.deep_view() == chunks_of(old(self).cells@),
            final(self).cells@ == old(self).cells@,
            final(self).view.pending_scroll_chunk == (match cell {
                Some(idx) => Some(idx),
                None => old(self).view.pending_scroll_chunk,
            }),
            final(self).view.scroll_offset == old(self).view.scroll_offset,
            final(self).view.title == old(self).view.title,
            final(self).view.last_content_height == old(self).view.last_content_height,
            final(self).is_done == old(self).is_done,
    {
        self.highlight_cell = cell;
        self.view.wrap_cache = None;
        self.view.texts = render_cells_to_texts(&self.cells);
        if let Some(idx) = cell {
            self.view.scroll_chunk_into_view(idx);
        }
    }

    /// Renders the pager region of `area` (the bottom three rows hold the
    /// key hints) and returns the visible page bounds.
    pub fn render(&mut self, area: Rect) -> (r: (usize, usize))
        ensures
            pager_render_rel(old(self).view, final(self).view, pager_area(area), r),
            final(self).cells == old(self).cells,
            final(self).highlight_cell == old(self).highlight_cell,
            final(self).is_done == old(self).is_done,
    {
        let top = Rect {
            x: area.x,
            y: area.y,
            width: area.width,
            height: if area.height >= 3 {
                area.height - 3
            } else {
                0
            },
        };
        self.view.render(top)
    }

    /// Routes one UI event: `q`, Ctrl+`t` and Ctrl+`c` dismiss, scroll keys
    /// move the view, a draw renders.
    pub fn handle_event(&mut self, event: TuiEvent, area: Rect) -> (r: EventResponse)
        ensures
            pager_event_rel(
                old(self).view,
                old(self).is_done,
                final(self).view,
                final(self).is_done,
                (event matches TuiEvent::Key(k) && closes_transcript(k)),
                event,
                area,
                r,
            ),
            final(self).cells == old(self).cells,
            final(self).highlight_cell == old(self).highlight_cell,
    {
        match event {
            TuiEvent::Key(k) => {
                let closes = (matches!(k.code, KeyCode::Char('q')) && matches!(
                    k.kind,
                    crate::keys::KeyEventKind::Press,
                )) || (matches!(k.code, KeyCode::Char('t')) && k.ctrl && !k.alt && !k.shift
                    && matches!(k.kind, crate::keys::KeyEventKind::Press)) || (matches!(
                    k.code,
                    KeyCode::Char('c'),
                ) && k.ctrl && !k.alt && !k.shift && matches!(
                    k.kind,
                    crate::keys::KeyEventKind::Press,
                ));
                if closes {
                    self.is_done = true;
                    return EventResponse::empty();
                }
                let top = Rect {
                    x: area.x,
                    y: area.y,
                    width: area.width,
                    height: if area.height >= 3 {
                        area.height - 3
                    } else {
                        0
                    },
                };
                let handled = self.view.handle_key_event(k, top);
                let mut resp = EventResponse::empty();
                if handled {
                    resp.schedule_frame_in_ms = Some(16);
                }
                resp
            },
            TuiEvent::Paste(_) => EventResponse::empty(),
            TuiEvent::Draw => {
                let page = self.render(area);
                let mut resp = EventResponse::empty();
                resp.page = Some(page);
                resp
            },
        }
    }

    /// Whether the overlay has been dismissed.
    pub fn is_done(&self) -> (r: bool)
        ensures
            r == self.is_done,
    {
        self.is_done
    }
}

/// Overlay over a fixed set of lines under a title.
#[derive(Debug)]
pub struct StaticOverlay {
    pub view: PagerView,
    pub is_done: bool,
}

impl StaticOverlay {
    /// A static overlay over the given lines, starting at the top.
    pub fn with_title(lines: Vec<String>, title: String) -> (r: Self)
        ensures
            r.view.texts.deep_view() == seq![lines.deep_view()],
            r.view.scroll_offset == 0,
            r.view.title == title,
            r.view.wrap_cache is None,
            r.view.last_content_height is None,
            r.view.pending_scroll_chunk is None,
            !r.is_done,
    {
        let mut texts: Vec<Vec<String>> = Vec::new();
        texts.push(lines);
        proof {
            assert(texts.deep_view() =~~= seq![texts@[0].deep_view()]);
        }
        StaticOverlay { view: PagerView::new(texts, title, 0), is_done: false }
    }

    /// Renders the pager region of `area` and returns the page bounds.
    pub fn render(&mut self, area: Rect) -> (r: (usize, usize))
        ensures
            pager_render_rel(old(self).view, final(self).view, pager_area(area), r),
            final(self).is_done == old(self).is_done,
    {
        let top = Rect {
            x: area.x,
            y: area.y,
            width: area.width,
            height: if area.height >= 3 {
                area.height - 3
            } else {
                0
            },
        };
        self.view.render(top)
    }

    /// Routes one UI event: `q` and Ctrl+`c` dismiss, scroll keys move the
    /// view, a draw renders.
    pub fn handle_event(&mut self, event: TuiEvent, area: Rect) -> (r: EventResponse)
        ensures
            pager_event_rel(
                old(self).view,
                old(self).is_done,
                final(self).view,
                final(self).is_done,
                (event matches TuiEvent::Key(k) && closes_static(k)),
                event,
                area,
                r,
            ),
    {
        match event {
            TuiEvent::Key(k) => {
                let closes = (matches!(k.code, KeyCode::Char('q')) && matches!(
                    k.kind,
                    crate::keys::KeyEventKind::Press,
                )) || (matches!(k.code, KeyCode::Char('c')) && k.ctrl && !k.alt && !k.shift
                    && matches!(k.kind, crate::keys::KeyEventKind::Press));
                if closes {
                    self.is_done = true;
                    return EventResponse::empty();
                }
                let top = Rect {
                    x: area.x,
                    y: area.y,
                    width: area.width,
                    height: if area.height >= 3 {
                        area.height - 3
                    } else {
                        0
                    },
                };
                let handled = self.view.handle_key_event(k, top);
                let mut resp = EventResponse::empty();
                if handled {
                    resp.schedule_frame_in_ms = Some(16);
                }
                resp
            },
            TuiEvent::Paste(_) => EventResponse::empty(),
            TuiEvent::Draw => {
                let page = self.render(area);
                let mut resp = EventResponse::empty();
                resp.page = Some(page);
                resp
            },
        }
    }

    /// Whether the overlay has been dismissed.
    pub fn is_done(&self) -> (r: bool)
        ensures
            r == self.is_done,
    {
        self.is_done
    }
}

/// The three overlay kinds, as a closed tagged union.
#[derive(Debug)]
pub enum Overlay {
    Transcript(TranscriptOverlay),
    Static(StaticOverlay),
    Terminal(TerminalOverlay),
}

/// Whether an overlay reports done.
pub open spec fn overlay_done(o: Overlay) -> bool {
    match o {
        Overlay::Transcript(t) => t.is_done,
        Overlay::Static(s) => s.is_done,
        Overlay::Terminal(t) => t.is_done,
    }
}

impl Overlay {
    /// A transcript overlay.
    pub fn new_transcript(cells: Vec<TranscriptCell>) -> (r: Self)
        ensures
            r matches Overlay::Transcript(t) && t.view.texts.deep_view() == chunks_of(cells@)
                && t.cells == cells && !t.is_done && t.view.scroll_offset == usize::MAX,
    {
        Overlay::Transcript(TranscriptOverlay::new(cells))
    }

    /// A static overlay with a title.
    pub fn new_static_with_title(lines: Vec<String>, title: String) -> (r: Self)
        ensures
            r matches Overlay::Static(s) && s.view.texts.deep_view() == seq![lines.deep_view()]
                && s.view.title == title && !s.is_done && s.view.scroll_offset == 0,
    {
        Overlay::Static(StaticOverlay::with_title(lines, title))
    }

    /// A terminal overlay attached to `params`.
    pub fn new_terminal(params: TerminalOverlayOpen) -> (r: Self)
        ensures
            r matches Overlay::Terminal(t) && t.call_id == params.call_id && t.exit_code is None
                && !t.is_done,
    {
        Overlay::Terminal(TerminalOverlay::new(params))
    }

    /// Dispatches one UI event to whichever overlay this is.
    pub fn handle_event(&mut self, event: TuiEvent, area: Rect, now_ms: u64) -> (r: EventResponse)
        ensures
            match *old(self) {
                Overlay::Transcript(pre) => *final(self) matches Overlay::Transcript(post)
                    && pager_event_rel(
                    pre.view,
                    pre.is_done,
                    post.view,
                    post.is_done,
                    (event matches TuiEvent::Key(k) && closes_transcript(k)),
                    event,
                    area,
                    r,
                ) && post.cells == pre.cells,
                Overlay::Static(pre) => *final(self) matches Overlay::Static(post)
                    && pager_event_rel(
                    pre.view,
                    pre.is_done,
                    post.view,
                    post.is_done,
                    (event matches TuiEvent::Key(k) && closes_static(k)),
                    event,
                    area,
                    r,
                ),
                Overlay::Terminal(pre) => *final(self) matches Overlay::Terminal(post)
                    && terminal_event_rel(pre, post, event, area, now_ms, r),
            },
    {
        match self {
            Overlay::Transcript(o) => o.handle_event(event, area),
            Overlay::Static(o) => o.handle_event(event, area),
            Overlay::Terminal(o) => o.handle_event(event, area, now_ms),
        }
    }

    /// Whether the overlay reports done and should be discarded.
    pub fn is_done(&self) -> (r: bool)
        ensures
            r == overlay_done(*self),
    {
        match self {
            Overlay::Transcript(o) => o.is_done(),
            Overlay::Static(o) => o.is_done(),
            Overlay::Terminal(o) => o.is_done(),
        }
    }
}

} // verus!
