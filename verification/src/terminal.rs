//! Terminal overlay: live view of one attached interactive process.
//!
//! The overlay consumes raw output chunks (decoded best-effort, carriage
//! returns treated as line breaks, committed line by line into a capped
//! scrollback with a pending partial line), encodes key events into terminal
//! byte sequences for the process's input, debounces viewport resizes, and
//! drives a running → finished → auto-closing lifecycle: once an exit status
//! arrives and at least one render has happened after it, the overlay
//! reports done after a fixed delay. Escape always closes it at once; Enter
//! closes it once an exit status exists. Times are milliseconds on the
//! host's monotonic clock.

use vstd::prelude::*;
use vstd::utf8::encode_scalar;

use crate::events::EventResponse;
use crate::events::TuiEvent;
use crate::keys::KeyCode;
use crate::keys::KeyEvent;
use crate::live_buffer::ExecOutputStream;
use crate::pager::PagerView;
use crate::pager::Rect;
use crate::text::complete_lines;
use crate::text::lossy_string;
use crate::text::lossy_utf8;
use crate::text::pending_rest;
use crate::text::snapshot_lines;
use crate::text::split_lines;
use crate::text::str_eq;

verus! {

/// Cap on committed scrollback lines; the oldest are dropped first.
pub const TERMINAL_MAX_BUFFER_LINES: usize = 4000;

/// Rows of the header block.
pub const TERMINAL_HEADER_HEIGHT: u16 = 2;

/// Rows of the footer key-hint block.
pub const TERMINAL_FOOTER_HEIGHT: u16 = 2;

/// Redraw cadence while the process runs, for the spinner.
pub const TERMINAL_SPINNER_INTERVAL_MS: u64 = 120;

/// How long a finished overlay stays before closing itself.
pub const TERMINAL_AUTO_CLOSE_DELAY_MS: u64 = 500;

/// Re-poll cadence while waiting out the auto-close delay.
pub const TERMINAL_AUTO_CLOSE_POLL_INTERVAL_MS: u64 = 100;

/// What the host hands over when attaching to a process.
#[derive(Debug)]
pub struct TerminalOverlayOpen {
    pub call_id: String,
    pub command: Vec<String>,
    pub cwd: String,
    pub session_id: Option<String>,
    pub started_at: u64,
}

/// What the shell-quoting join of a command line returns; a function of the
/// words alone.
pub uninterp spec fn shell_joined(words: Seq<Seq<char>>) -> Seq<char>;

/// Whether any word holds a NUL character, the one thing the shell-quoting
/// join refuses.
pub open spec fn has_nul_word(words: Seq<Seq<char>>) -> bool {
    exists|i: int| 0 <= i < words.len() && (#[trigger] words[i]).contains('\u{0}')
}

/// Relies on `shlex::try_join`: joins the words with single spaces, quoting
/// as needed; with default settings it fails exactly when a word contains a
/// NUL byte, and otherwise its result is a function of the words alone.
#[verifier::external_body]
fn try_join_words(words: &Vec<String>) -> (r: Option<String>)
    ensures
        r is Some <==> !has_nul_word(words.deep_view()),
        r is Some ==> r.unwrap()@ == shell_joined(words.deep_view()),
{
    shlex::try_join(words.iter().map(String::as_str)).ok()
}

/// The words joined by single spaces, with no quoting: the fallback display
/// of a command that cannot be shell-quoted.
pub open spec fn spaces_joined(words: Seq<Seq<char>>) -> Seq<char>
    decreases words.len(),
{
    if words.len() == 0 {
        Seq::empty()
    } else if words.len() == 1 {
        words[0]
    } else {
        spaces_joined(words.drop_last()) + seq![' '] + words.last()
    }
}

/// Joins words with single spaces.
fn join_with_spaces(words: &Vec<String>) -> (r: String)
    ensures
        r@ == spaces_joined(words.deep_view()),
{
    let ghost ws = words.deep_view();
    let mut out = String::new();
    let n = words.len();
    let mut i: usize = 0;
    while i < n
        invariant
            i <= n,
            n == words@.len(),
            ws == words.deep_view(),
            out@ == spaces_joined(ws.take(i as int)),
        decreases n - i,
    {
        if i > 0 {
            out.append(" ");
        }
        out.append(words[i].as_str());
        proof {
            reveal_strlit(" ");
            assert(ws.take(i + 1).drop_last() =~= ws.take(i as int));
            assert(ws.take(i + 1).last() == ws[i as int]);
            assert(words@[i as int]@ == ws[i as int]);
            if i > 0 {
                assert(out@ =~= spaces_joined(ws.take(i + 1)));
            } else {
                assert(out@ =~= spaces_joined(ws.take(1)));
            }
        }
        i += 1;
    }
    proof {
        assert(ws.take(n as int) =~= ws);
    }
    out
}

/// The display form of an attached command: shell-quoted when possible,
/// otherwise the words joined by spaces.
pub open spec fn command_display_of(words: Seq<Seq<char>>) -> Seq<char> {
    if !has_nul_word(words) {
        shell_joined(words)
    } else {
        spaces_joined(words)
    }
}

/// The committed scrollback after appending lines and trimming to the cap.
pub open spec fn trimmed(lines: Seq<Seq<char>>) -> Seq<Seq<char>> {
    if lines.len() > TERMINAL_MAX_BUFFER_LINES {
        lines.skip(lines.len() - TERMINAL_MAX_BUFFER_LINES)
    } else {
        lines
    }
}

/// A byte sequence with an ESC prefix when the Alt modifier is held.
pub open spec fn alt_prefixed(alt: bool, s: Seq<u8>) -> Seq<u8> {
    if alt {
        seq![0x1bu8] + s
    } else {
        s
    }
}

/// The scalar value of `c` with an ASCII upper-case letter lowered.
pub open spec fn ascii_lower_code(c: char) -> int {
    if 65 <= c as u32 <= 90 {
        c as u32 + 32
    } else {
        c as u32 as int
    }
}

/// The control code of Ctrl+`c`: the low five bits of the lowered
/// character's low byte, except Ctrl+`?` which is DEL.
pub open spec fn ctrl_byte(c: char) -> u8 {
    if c == '?' {
        0x7f
    } else {
        (ascii_lower_code(c) % 32) as u8
    }
}

/// The escape sequence of a function key: the short SS3 form for F1 to F4,
/// the bracketed form for F5 to F12, nothing otherwise.
pub open spec fn fn_key_seq(n: u8) -> Option<Seq<u8>> {
    if n == 1 {
        Some(seq![0x1bu8, 0x4f, 0x50])
    } else if n == 2 {
        Some(seq![0x1bu8, 0x4f, 0x51])
    } else if n == 3 {
        Some(seq![0x1bu8, 0x4f, 0x52])
    } else if n == 4 {
        Some(seq![0x1bu8, 0x4f, 0x53])
    } else if n == 5 {
        Some(seq![0x1bu8, 0x5b, 0x31, 0x35, 0x7e])
    } else if n == 6 {
        Some(seq![0x1bu8, 0x5b, 0x31, 0x37, 0x7e])
    } else if n == 7 {
        Some(seq![0x1bu8, 0x5b, 0x31, 0x38, 0x7e])
    } else if n == 8 {
        Some(seq![0x1bu8, 0x5b, 0x31, 0x39, 0x7e])
    } else if n == 9 {
        Some(seq![0x1bu8, 0x5b, 0x32, 0x30, 0x7e])
    } else if n == 10 {
        Some(seq![0x1bu8, 0x5b, 0x32, 0x31, 0x7e])
    } else if n == 11 {
        Some(seq![0x1bu8, 0x5b, 0x32, 0x33, 0x7e])
    } else if n == 12 {
        Some(seq![0x1bu8, 0x5b, 0x32, 0x34, 0x7e])
    } else {
        None
    }
}

/// The raw bytes one key event sends to the process: printable characters
/// as their UTF-8 encoding (ESC-prefixed under Alt), control-modified
/// characters as their control code, navigation and editing keys as their
/// standard control sequences, and function keys per [`fn_key_seq`]. Only
/// presses and repeats produce bytes; Escape is handled by the overlay
/// itself and produces none.
pub open spec fn key_bytes(k: KeyEvent) -> Option<Seq<u8>> {
    if !k.is_press_or_repeat() {
        None
    } else {
        match k.code {
            KeyCode::Enter => Some(seq![0x0du8]),
            KeyCode::Backspace => Some(seq![0x7fu8]),
            KeyCode::Tab => Some(seq![0x09u8]),
            KeyCode::Delete => Some(alt_prefixed(k.alt, seq![0x1bu8, 0x5b, 0x33, 0x7e])),
            KeyCode::Insert => Some(alt_prefixed(k.alt, seq![0x1bu8, 0x5b, 0x32, 0x7e])),
            KeyCode::Home => Some(alt_prefixed(k.alt, seq![0x1bu8, 0x5b, 0x48])),
            KeyCode::End => Some(alt_prefixed(k.alt, seq![0x1bu8, 0x5b, 0x46])),
            KeyCode::PageUp => Some(alt_prefixed(k.alt, seq![0x1bu8, 0x5b, 0x35, 0x7e])),
            KeyCode::PageDown => Some(alt_prefixed(k.alt, seq![0x1bu8, 0x5b, 0x36, 0x7e])),
            KeyCode::Up => Some(alt_prefixed(k.alt, seq![0x1bu8, 0x5b, 0x41])),
            KeyCode::Down => Some(alt_prefixed(k.alt, seq![0x1bu8, 0x5b, 0x42])),
            KeyCode::Left => Some(alt_prefixed(k.alt, seq![0x1bu8, 0x5b, 0x44])),
            KeyCode::Right => Some(alt_prefixed(k.alt, seq![0x1bu8, 0x5b, 0x43])),
            KeyCode::Char(c) => if k.ctrl {
                if k.alt {
                    Some(seq![0x1bu8, ctrl_byte(c)])
                } else {
                    Some(seq![ctrl_byte(c)])
                }
            } else {
                Some(alt_prefixed(k.alt, encode_scalar(c as u32)))
            },
            KeyCode::F(n) => match fn_key_seq(n) {
                Some(s) => Some(alt_prefixed(k.alt, s)),
                None => None,
            },
            KeyCode::Esc => None,
            KeyCode::Other => None,
        }
    }
}

/// Whether a key event dismisses the overlay at once: Escape always,
/// Enter only once an exit status exists.
pub open spec fn closes_overlay(k: KeyEvent, exit_code: Option<i32>) -> bool {
    ||| (k.code is Esc && k.is_press_or_repeat())
    ||| (k.code is Enter && k.kind is Press && exit_code is Some)
}

/// The earlier of two optional frame deadlines.
pub open spec fn min_schedule(a: Option<u64>, b: Option<u64>) -> Option<u64> {
    match (a, b) {
        (Some(x), Some(y)) => if x <= y {
            Some(x)
        } else {
            Some(y)
        },
        (Some(x), None) => Some(x),
        (None, Some(y)) => Some(y),
        (None, None) => None,
    }
}

/// What one render leaves behind and hands back, over the full overlay
/// state: `pre` to `post`, painting `page` and asking for `resize`.
pub open spec fn render_rel(
    pre: TerminalOverlay,
    post: TerminalOverlay,
    area: Rect,
    page: Option<(usize, usize)>,
    resize: Option<(u16, u16)>,
) -> bool {
    let small = area.height <= TERMINAL_HEADER_HEIGHT + TERMINAL_FOOTER_HEIGHT;
    let rows = (area.height - TERMINAL_HEADER_HEIGHT - TERMINAL_FOOTER_HEIGHT) as u16;
    &&& post.lines == pre.lines
    &&& post.pending_line == pre.pending_line
    &&& post.call_id == pre.call_id
    &&& post.command_display == pre.command_display
    &&& post.cwd == pre.cwd
    &&& post.session_id == pre.session_id
    &&& post.started_at == pre.started_at
    &&& post.exit_code == pre.exit_code
    &&& post.timed_out == pre.timed_out
    &&& post.is_done == pre.is_done
    &&& post.finished_at == pre.finished_at
    &&& (small ==> post == pre && page is None && resize is None)
    &&& (!small ==> {
        &&& post.rendered_after_finish == (pre.rendered_after_finish || pre.exit_code is Some)
        &&& !post.lines_dirty
        &&& (pre.lines_dirty ==> post.view.texts.deep_view() == seq![
            if pre.pending_line@.len() > 0 {
                pre.lines.deep_view().push(pre.pending_line@)
            } else {
                pre.lines.deep_view()
            },
        ])
        &&& (!pre.lines_dirty ==> post.view.texts == pre.view.texts)
        &&& post.view.last_content_height == Some(rows as usize)
        &&& post.view.wrap_cache is Some
        &&& post.view.scroll_offset == vstd::math::min(
            pre.view.scroll_offset as int,
            crate::pager::sat_sub(post.view.wrap_cache.unwrap().wrapped@.len() as int, rows as int),
        )
        &&& page == Some(
            (
                post.view.scroll_offset,
                vstd::math::min(
                    post.view.scroll_offset + rows as int,
                    post.view.wrap_cache.unwrap().wrapped@.len() as int,
                ) as usize,
            ),
        )
        &&& (pre.exit_code is Some ==> resize is None && post.last_sent_size
            == pre.last_sent_size)
        &&& (pre.exit_code is None ==> {
            let dims = (rows, area.width);
            if rows > 0 && area.width > 0 && pre.last_sent_size != Some(dims) {
                resize == Some(dims) && post.last_sent_size == Some(dims)
            } else {
                resize is None && post.last_sent_size == pre.last_sent_size
            }
        })
    })
}

/// What handling one UI event does to the overlay and hands back: the key,
/// paste, or draw effect, followed by the auto-close check.
pub open spec fn terminal_event_rel(
    pre: TerminalOverlay,
    post: TerminalOverlay,
    event: TuiEvent,
    area: Rect,
    now_ms: u64,
    r: EventResponse,
) -> bool {
    let mid = TerminalOverlay { is_done: pre.is_done, ..post };
    let auto = mid.exit_code is Some && mid.spec_should_auto_close(now_ms);
    let spin: Option<u64> = if pre.exit_code is None {
        Some(TERMINAL_SPINNER_INTERVAL_MS)
    } else {
        None
    };
    match event {
        TuiEvent::Key(k) => {
            let key_done = pre.is_done || closes_overlay(k, pre.exit_code);
            let poll: Option<u64> = if pre.exit_code is Some && !key_done && !auto {
                Some(TERMINAL_AUTO_CLOSE_POLL_INTERVAL_MS)
            } else {
                None
            };
            &&& post == (TerminalOverlay { is_done: post.is_done, ..pre })
            &&& post.is_done == (pre.is_done || closes_overlay(k, pre.exit_code) || auto)
            &&& r.resize is None
            &&& r.page is None
            &&& r.schedule_frame_in_ms == min_schedule(spin, poll)
            &&& (match r.write_bytes {
                Some(b) => !closes_overlay(k, pre.exit_code) && key_bytes(k) is Some && b@
                    == key_bytes(k).unwrap() && b@.len() > 0 && pre.exit_code is None,
                None => closes_overlay(k, pre.exit_code) || key_bytes(k) is None || key_bytes(
                    k,
                ).unwrap().len() == 0 || pre.exit_code is Some,
            })
        },
        TuiEvent::Paste(text) => {
            let poll: Option<u64> = if pre.exit_code is Some && !pre.is_done && !auto {
                Some(TERMINAL_AUTO_CLOSE_POLL_INTERVAL_MS)
            } else {
                None
            };
            &&& post == (TerminalOverlay { is_done: post.is_done, ..pre })
            &&& post.is_done == (pre.is_done || auto)
            &&& r.resize is None
            &&& r.page is None
            &&& r.schedule_frame_in_ms == poll
            &&& (match r.write_bytes {
                Some(b) => b@ == vstd::utf8::encode_utf8(text@) && b@.len() > 0 && pre.exit_code
                    is None,
                None => vstd::utf8::encode_utf8(text@).len() == 0 || pre.exit_code is Some,
            })
        },
        TuiEvent::Draw => {
            let poll: Option<u64> = if pre.exit_code is Some && !pre.is_done && !auto {
                Some(TERMINAL_AUTO_CLOSE_POLL_INTERVAL_MS)
            } else {
                None
            };
            &&& render_rel(pre, mid, area, r.page, r.resize)
            &&& post.is_done == (pre.is_done || auto)
            &&& r.write_bytes is None
            &&& r.schedule_frame_in_ms == min_schedule(spin, poll)
        },
    }
}

/// What the header line reports about the attached process.
#[derive(Clone, Copy, Debug, PartialEq, Eq, Structural)]
pub enum TerminalStatus {
    /// No exit status yet; elapsed time is still running.
    Running,
    /// Finished because the process ran out of time.
    TimedOut,
    /// Finished with the given exit code.
    Exited(i32),
}

/// What one render paints and sends.
#[derive(Debug)]
pub struct TermFrame {
    /// Half-open range of wrapped rows to paint in the content area.
    pub page: Option<(usize, usize)>,
    /// New (rows, cols) to send to the attached process.
    pub resize: Option<(u16, u16)>,
}

/// Overlay showing one attached interactive process.
#[derive(Debug)]
pub struct TerminalOverlay {
    pub view: PagerView,
    pub lines: Vec<String>,
    pub pending_line: String,
    pub call_id: String,
    pub command_display: String,
    pub cwd: String,
    pub session_id: Option<String>,
    pub started_at: u64,
    pub exit_code: Option<i32>,
    pub timed_out: bool,
    pub is_done: bool,
    pub lines_dirty: bool,
    pub last_sent_size: Option<(u16, u16)>,
    pub finished_at: Option<u64>,
    pub rendered_after_finish: bool,
}

impl TerminalOverlay {
    /// Whether the overlay is in its Running state: no exit status yet.
    pub open spec fn is_running(&self) -> bool {
        self.exit_code is None
    }

    /// A finished overlay auto-closes once a render has happened after the
    /// finish and the delay has elapsed.
    pub open spec fn spec_should_auto_close(&self, now_ms: u64) -> bool {
        match self.finished_at {
            Some(t) => self.rendered_after_finish && now_ms >= t
                + TERMINAL_AUTO_CLOSE_DELAY_MS,
            None => false,
        }
    }

    /// A fresh overlay in its Running state, attached to `params`.
    pub fn new(params: TerminalOverlayOpen) -> (r: Self)
        ensures
            r.call_id == params.call_id,
            r.command_display@ == command_display_of(params.command.deep_view()),
            r.cwd == params.cwd,
            r.session_id == params.session_id,
            r.started_at == params.started_at,
            r.lines@.len() == 0,
            r.pending_line@.len() == 0,
            r.exit_code is None,
            !r.timed_out,
            !r.is_done,
            r.lines_dirty,
            r.last_sent_size is None,
            r.finished_at is None,
            !r.rendered_after_finish,
            r.view.texts.deep_view() == seq![Seq::<Seq<char>>::empty()],
            r.view.scroll_offset == usize::MAX,
            r.view.title@.len() == 0,
            r.view.wrap_cache is None,
            r.view.last_content_height is None,
            r.view.pending_scroll_chunk is None,
    {
        let command_display = match try_join_words(&params.command) {
            Some(joined) => joined,
            None => join_with_spaces(&params.command),
        };
        let mut texts: Vec<Vec<String>> = Vec::new();
        texts.push(Vec::new());
        proof {
            assert(texts.deep_view() =~~= seq![Seq::<Seq<char>>::empty()]);
        }
        let view = PagerView::new(texts, String::new(), usize::MAX);
        TerminalOverlay {
            view,
            lines: Vec::new(),
            pending_line: String::new(),
            call_id: params.call_id,
            command_display,
            cwd: params.cwd,
            session_id: params.session_id,
            started_at: params.started_at,
            exit_code: None,
            timed_out: false,
            is_done: false,
            lines_dirty: true,
            last_sent_size: None,
            finished_at: None,
            rendered_after_finish: false,
        }
    }

    /// What the header reports: running until an exit status arrives, then
    /// timed out or exited with the status's code.
    pub fn status(&self) -> (r: TerminalStatus)
        ensures
            r == (match self.exit_code {
                None => TerminalStatus::Running,
                Some(code) => if self.timed_out {
                    TerminalStatus::TimedOut
                } else {
                    TerminalStatus::Exited(code)
                },
            }),
    {
        match self.exit_code {
            None => TerminalStatus::Running,
            Some(code) => if self.timed_out {
                TerminalStatus::TimedOut
            } else {
                TerminalStatus::Exited(code)
            },
        }
    }

    /// Whether this overlay shows the given call.
    pub fn matches_call(&self, call_id: &str) -> (r: bool)
        ensures
            r == (self.call_id@ == call_id@),
    {
        str_eq(self.call_id.as_str(), call_id)
    }

    /// Whether the overlay has been dismissed or has auto-closed.
    pub fn is_done(&self) -> (r: bool)
        ensures
            r == self.is_done,
    {
        self.is_done
    }

    /// See [`Self::spec_should_auto_close`].
    pub fn should_auto_close(&self, now_ms: u64) -> (r: bool)
        ensures
            r == self.spec_should_auto_close(now_ms),
    {
        match self.finished_at {
            Some(finished_at) => {
                self.rendered_after_finish && now_ms >= finished_at
                    && now_ms - finished_at >= TERMINAL_AUTO_CLOSE_DELAY_MS
            },
            None => false,
        }
    }

    /// Drops the oldest committed lines beyond the scrollback cap.
    fn trim_history(&mut self)
        ensures
            final(self).lines.deep_view() == trimmed(old(self).lines.deep_view()),
            *final(self) == (TerminalOverlay { lines: final(self).lines, ..*old(self) }),
    {
        let ghost orig = self.lines.deep_view();
        if self.lines.len() > TERMINAL_MAX_BUFFER_LINES {
            let overflow = self.lines.len() - TERMINAL_MAX_BUFFER_LINES;
            let mut k: usize = 0;
            while k < overflow
                invariant
                    k <= overflow,
                    overflow == orig.len() - TERMINAL_MAX_BUFFER_LINES,
                    self.lines@.len() == orig.len() - k,
                    self.lines.deep_view() == orig.skip(k as int),
                    *self == (TerminalOverlay { lines: self.lines, ..*old(self) }),
                decreases overflow - k,
            {
                let ghost prev_deep = self.lines.deep_view();
                let ghost prev_v = self.lines@;
                self.lines.remove(0);
                proof {
                    assert forall|m: int|
                        0 <= m < self.lines@.len() implies #[trigger] self.lines.deep_view()[m]
                        == orig.skip(k + 1)[m] by {
                        assert(self.lines@[m] == prev_v[m + 1]);
                        assert(self.lines.deep_view()[m] == self.lines@[m]@);
                        assert(prev_deep[m + 1] == prev_v[m + 1]@);
                    }
                    assert(self.lines.deep_view() =~= orig.skip(k + 1));
                }
                k += 1;
            }
        }
    }

    /// Ingests one raw output chunk: decodes it best-effort, merges it with
    /// the pending partial line, commits every newly completed line to the
    /// trimmed scrollback, keeps the unterminated remainder pending, and
    /// re-pins the view to the bottom if it was following it.
    pub fn push_chunk(&mut self, _stream: ExecOutputStream, chunk: &[u8])
        ensures
            chunk@.len() == 0 ==> *final(self) == *old(self),
            chunk@.len() > 0 ==> {
                let merged = old(self).pending_line@ + lossy_utf8(chunk@);
                &&& final(self).lines.deep_view() == trimmed(
                    old(self).lines.deep_view() + complete_lines(merged),
                )
                &&& final(self).pending_line@ == pending_rest(merged)
                &&& final(self).lines_dirty
                &&& final(self).view.scroll_offset == (if old(
                    self,
                ).view.spec_is_scrolled_to_bottom() {
                    usize::MAX
                } else {
                    old(self).view.scroll_offset
                })
                &&& final(self).view == (PagerView {
                    scroll_offset: final(self).view.scroll_offset,
                    ..old(self).view
                })
                &&& *final(self) == (TerminalOverlay {
                    lines: final(self).lines,
                    pending_line: final(self).pending_line,
                    lines_dirty: true,
                    view: final(self).view,
                    ..*old(self)
                })
            },
    {
        if chunk.len() == 0 {
            return ;
        }
        let follow_bottom = self.view.is_scrolled_to_bottom();
        let text = lossy_string(chunk);
        let mut merged = String::new();
        merged.append(self.pending_line.as_str());
        merged.append(text.as_str());
        let (mut new_lines, pending) = split_lines(merged.as_str());
        self.pending_line = pending;
        let ghost before = self.lines.deep_view();
        let ghost added = new_lines.deep_view();
        self.lines.append(&mut new_lines);
        proof {
            assert(self.lines.deep_view() =~~= before + added);
        }
        self.trim_history();
        if follow_bottom {
            self.view.scroll_offset = usize::MAX;
        }
        self.lines_dirty = true;
    }

    /// Applies a completion notice: records the exit status and the finish
    /// time, and when the aggregated snapshot holds strictly more lines than
    /// the committed scrollback, replaces the scrollback wholesale and
    /// clears the pending partial line (recovering output lost to earlier
    /// truncation).
    pub fn mark_finished(
        &mut self,
        exit_code: i32,
        timed_out: bool,
        aggregated_output: &str,
        now_ms: u64,
    )
        ensures
            final(self).exit_code == Some(exit_code),
            final(self).timed_out == timed_out,
            final(self).finished_at == Some(now_ms),
            !final(self).rendered_after_finish,
            final(self).lines_dirty,
            ({
                let snap = snapshot_lines(aggregated_output@);
                if aggregated_output@.len() > 0 && snap.len() > old(self).lines.deep_view().len() {
                    final(self).lines.deep_view() == snap && final(self).pending_line@.len() == 0
                } else {
                    final(self).lines == old(self).lines && final(self).pending_line == old(
                        self,
                    ).pending_line
                }
            }),
            *final(self) == (TerminalOverlay {
                exit_code: Some(exit_code),
                timed_out,
                finished_at: Some(now_ms),
                rendered_after_finish: false,
                lines_dirty: true,
                lines: final(self).lines,
                pending_line: final(self).pending_line,
                ..*old(self)
            }),
    {
        self.exit_code = Some(exit_code);
        self.timed_out = timed_out;
        self.finished_at = Some(now_ms);
        self.rendered_after_finish = false;
        if !aggregated_output.is_empty() {
            let (mut snapshot, rest) = split_lines(aggregated_output);
            if !rest.as_str().is_empty() {
                snapshot.push(rest);
            }
            proof {
                assert(snapshot.deep_view() =~~= snapshot_lines(aggregated_output@));
            }
            if snapshot.len() > self.lines.len() {
                self.lines = snapshot;
                self.pending_line = String::new();
            }
        }
        self.lines_dirty = true;
    }

    /// Checks the auto-close clock after an event: a finished overlay whose
    /// delay has run out (and that has rendered since finishing) reports
    /// done; one still waiting asks for a re-poll.
    pub fn after_event(&mut self, now_ms: u64) -> (r: Option<u64>)
        ensures
            final(self).is_done == (old(self).is_done || (old(self).exit_code is Some && old(
                self,
            ).spec_should_auto_close(now_ms))),
            *final(self) == (TerminalOverlay { is_done: final(self).is_done, ..*old(self) }),
            r == (if old(self).exit_code is Some && !old(self).is_done && !old(
                self,
            ).spec_should_auto_close(now_ms) {
                Some(TERMINAL_AUTO_CLOSE_POLL_INTERVAL_MS)
            } else {
                None::<u64>
            }),
    {
        if self.exit_code.is_some() && !self.is_done {
            if self.should_auto_close(now_ms) {
                self.is_done = true;
                None
            } else {
                Some(TERMINAL_AUTO_CLOSE_POLL_INTERVAL_MS)
            }
        } else {
            None
        }
    }

    /// Gate on forwarding input: bytes go to the process only while it
    /// runs, and empty writes are dropped.
    pub fn send_bytes(&self, bytes: Vec<u8>) -> (r: Option<Vec<u8>>)
        ensures
            match r {
                Some(b) => b == bytes && bytes@.len() > 0 && self.exit_code is None,
                None => bytes@.len() == 0 || self.exit_code is Some,
            },
    {
        if bytes.len() == 0 || self.exit_code.is_some() {
            None
        } else {
            Some(bytes)
        }
    }

    /// Debounced resize: hands back the new geometry only when it differs
    /// from the last one sent, and records it; zero-sized areas and
    /// finished processes get nothing.
    pub fn maybe_send_resize(&mut self, rows: u16, cols: u16) -> (r: Option<(u16, u16)>)
        ensures
            ({
                let dims = (rows, cols);
                if rows > 0 && cols > 0 && old(self).last_sent_size != Some(dims) {
                    &&& *final(self) == (TerminalOverlay {
                        last_sent_size: Some(dims),
                        ..*old(self)
                    })
                    &&& r == (if old(self).exit_code is None {
                        Some(dims)
                    } else {
                        None::<(u16, u16)>
                    })
                } else {
                    *final(self) == *old(self) && r is None
                }
            }),
    {
        if rows == 0 || cols == 0 {
            return None;
        }
        let dims = (rows, cols);
        let same = match self.last_sent_size {
            Some((r0, c0)) => r0 == rows && c0 == cols,
            None => false,
        };
        if same {
            return None;
        }
        self.last_sent_size = Some(dims);
        if self.exit_code.is_none() {
            Some(dims)
        } else {
            None
        }
    }

    /// Encodes one key event to the bytes it sends; see [`key_bytes`].
    pub fn key_event_to_bytes(key: KeyEvent) -> (r: Option<Vec<u8>>)
        ensures
            r is Some <==> key_bytes(key) is Some,
            r is Some ==> r.unwrap()@ == key_bytes(key).unwrap(),
    {
        match key.kind {
            crate::keys::KeyEventKind::Press => (),
            crate::keys::KeyEventKind::Repeat => (),
            crate::keys::KeyEventKind::Release => {
                return None;
            },
        }
        match key.code {
            KeyCode::Enter => Some(vec![0x0du8]),
            KeyCode::Backspace => Some(vec![0x7fu8]),
            KeyCode::Tab => Some(vec![0x09u8]),
            KeyCode::Delete => Some(with_alt_prefix(key.alt, vec![0x1bu8, 0x5b, 0x33, 0x7e])),
            KeyCode::Insert => Some(with_alt_prefix(key.alt, vec![0x1bu8, 0x5b, 0x32, 0x7e])),
            KeyCode::Home => Some(with_alt_prefix(key.alt, vec![0x1bu8, 0x5b, 0x48])),
            KeyCode::End => Some(with_alt_prefix(key.alt, vec![0x1bu8, 0x5b, 0x46])),
            KeyCode::PageUp => Some(with_alt_prefix(key.alt, vec![0x1bu8, 0x5b, 0x35, 0x7e])),
            KeyCode::PageDown => Some(with_alt_prefix(key.alt, vec![0x1bu8, 0x5b, 0x36, 0x7e])),
            KeyCode::Up => Some(with_alt_prefix(key.alt, vec![0x1bu8, 0x5b, 0x41])),
            KeyCode::Down => Some(with_alt_prefix(key.alt, vec![0x1bu8, 0x5b, 0x42])),
            KeyCode::Left => Some(with_alt_prefix(key.alt, vec![0x1bu8, 0x5b, 0x44])),
            KeyCode::Right => Some(with_alt_prefix(key.alt, vec![0x1bu8, 0x5b, 0x43])),
            KeyCode::Char(c) => {
                if key.ctrl {
                    let code: u32 = c as u32;
                    let lower: u32 = if 65 <= code && code <= 90 {
                        code + 32
                    } else {
                        code
                    };
                    let mapped: u8 = if c == '?' {
                        0x7f
                    } else {
                        (lower % 32) as u8
                    };
                    if key.alt {
                        return Some(vec![0x1bu8, mapped]);
                    }
                    return Some(vec![mapped]);
                }
                Some(with_alt_prefix(key.alt, char_utf8_bytes(c)))
            },
            KeyCode::F(n) => {
                let tail: Vec<u8> = match n {
                    1 => vec![0x1bu8, 0x4f, 0x50],
                    2 => vec![0x1bu8, 0x4f, 0x51],
                    3 => vec![0x1bu8, 0x4f, 0x52],
                    4 => vec![0x1bu8, 0x4f, 0x53],
                    5 => vec![0x1bu8, 0x5b, 0x31, 0x35, 0x7e],
                    6 => vec![0x1bu8, 0x5b, 0x31, 0x37, 0x7e],
                    7 => vec![0x1bu8, 0x5b, 0x31, 0x38, 0x7e],
                    8 => vec![0x1bu8, 0x5b, 0x31, 0x39, 0x7e],
                    9 => vec![0x1bu8, 0x5b, 0x32, 0x30, 0x7e],
                    10 => vec![0x1bu8, 0x5b, 0x32, 0x31, 0x7e],
                    11 => vec![0x1bu8, 0x5b, 0x32, 0x33, 0x7e],
                    12 => vec![0x1bu8, 0x5b, 0x32, 0x34, 0x7e],
                    _ => {
                        return None;
                    },
                };
                Some(with_alt_prefix(key.alt, tail))
            },
            KeyCode::Esc => None,
            KeyCode::Other => None,
        }
    }

    /// Handles one key: Escape dismisses at once, Enter dismisses once an
    /// exit status exists, anything else is encoded and forwarded to the
    /// process while it runs.
    pub fn handle_key_event(&mut self, key: KeyEvent) -> (r: Option<Vec<u8>>)
        ensures
            closes_overlay(key, old(self).exit_code) ==> *final(self) == (TerminalOverlay {
                is_done: true,
                ..*old(self)
            }) && r is None,
            !closes_overlay(key, old(self).exit_code) ==> *final(self) == *old(self) && (match r {
                Some(b) => key_bytes(key) is Some && b@ == key_bytes(key).unwrap() && b@.len() > 0
                    && old(self).exit_code is None,
                None => key_bytes(key) is None || key_bytes(key).unwrap().len() == 0 || old(
                    self,
                ).exit_code is Some,
            }),
    {
        let is_press_or_repeat = matches!(
            key.kind,
            crate::keys::KeyEventKind::Press | crate::keys::KeyEventKind::Repeat
        );
        if matches!(key.code, KeyCode::Esc) && is_press_or_repeat {
            self.is_done = true;
            return None;
        }
        if matches!(key.code, KeyCode::Enter) && matches!(key.kind, crate::keys::KeyEventKind::Press)
            && self.exit_code.is_some() {
            self.is_done = true;
            return None;
        }
        match Self::key_event_to_bytes(key) {
            Some(bytes) => self.send_bytes(bytes),
            None => None,
        }
    }

    /// Prepares one render: paints nothing when the area cannot hold a
    /// content row besides header and footer; otherwise syncs the pager
    /// from the scrollback, wraps at the area's width, clamps the scroll,
    /// returns the visible page, and either negotiates a resize (while
    /// running) or records that a render happened after finishing.
    pub fn render(&mut self, area: Rect) -> (r: TermFrame)
        ensures
            render_rel(*old(self), *final(self), area, r.page, r.resize),
    {
        if area.height <= TERMINAL_HEADER_HEIGHT + TERMINAL_FOOTER_HEIGHT {
            return TermFrame { page: None, resize: None };
        }
        let rows = area.height - TERMINAL_HEADER_HEIGHT - TERMINAL_FOOTER_HEIGHT;
        self.sync_view_if_dirty();
        self.view.update_last_content_height(rows);
        self.view.ensure_wrapped(area.width);
        let visible = rows as usize;
        let wrapped_len = self.view.cached().len();
        let max_scroll = if wrapped_len >= visible {
            wrapped_len - visible
        } else {
            0
        };
        if self.view.scroll_offset > max_scroll {
            self.view.scroll_offset = max_scroll;
        }
        let start = self.view.scroll_offset;
        let end = if visible <= wrapped_len - start {
            start + visible
        } else {
            wrapped_len
        };
        let resize = if self.exit_code.is_none() {
            self.maybe_send_resize(rows, area.width)
        } else {
            self.rendered_after_finish = true;
            None
        };
        TermFrame { page: Some((start, end)), resize }
    }

    /// Routes one UI event: keys are handled or forwarded, pasted text is
    /// forwarded as its UTF-8 bytes, a draw tick renders; afterwards the
    /// auto-close clock is checked, and the next frame is scheduled at the
    /// spinner cadence while running or at the poll cadence while waiting
    /// to close.
    pub fn handle_event(&mut self, event: TuiEvent, area: Rect, now_ms: u64) -> (r: EventResponse)
        ensures
            terminal_event_rel(*old(self), *final(self), event, area, now_ms, r),
    {
        match event {
            TuiEvent::Key(k) => {
                let write_bytes = self.handle_key_event(k);
                let spin = if self.exit_code.is_none() {
                    Some(TERMINAL_SPINNER_INTERVAL_MS)
                } else {
                    None
                };
                let poll = self.after_event(now_ms);
                EventResponse {
                    write_bytes,
                    resize: None,
                    schedule_frame_in_ms: min_opt(spin, poll),
                    page: None,
                }
            },
            TuiEvent::Paste(text) => {
                let bytes = text.as_str().as_bytes_vec();
                let write_bytes = self.send_bytes(bytes);
                let poll = self.after_event(now_ms);
                EventResponse {
                    write_bytes,
                    resize: None,
                    schedule_frame_in_ms: poll,
                    page: None,
                }
            },
            TuiEvent::Draw => {
                let frame = self.render(area);
                let spin = if self.exit_code.is_none() {
                    Some(TERMINAL_SPINNER_INTERVAL_MS)
                } else {
                    None
                };
                let poll = self.after_event(now_ms);
                EventResponse {
                    write_bytes: None,
                    resize: frame.resize,
                    schedule_frame_in_ms: min_opt(spin, poll),
                    page: frame.page,
                }
            },
        }
    }

    /// Rebuilds the pager's single text chunk from the committed lines and
    /// the pending partial line (shown uncommitted), when they changed since
    /// the last build.
    pub fn sync_view_if_dirty(&mut self)
        ensures
            !old(self).lines_dirty ==> *final(self) == *old(self),
            old(self).lines_dirty ==> {
                &&& final(self).view.texts.deep_view() == seq![
                    if old(self).pending_line@.len() > 0 {
                        old(self).lines.deep_view().push(old(self).pending_line@)
                    } else {
                        old(self).lines.deep_view()
                    },
                ]
                &&& final(self).view == (PagerView {
                    texts: final(self).view.texts,
                    wrap_cache: None,
                    ..old(self).view
                })
                &&& *final(self) == (TerminalOverlay {
                    view: final(self).view,
                    lines_dirty: false,
                    ..*old(self)
                })
            },
    {
        if !self.lines_dirty {
            return ;
        }
        let mut combined: Vec<String> = Vec::new();
        let n = self.lines.len();
        let mut i: usize = 0;
        while i < n
            invariant
                i <= n,
                n == self.lines@.len(),
                combined@.len() == i,
                *self == *old(self),
                combined.deep_view() == self.lines.deep_view().take(i as int),
            decreases n - i,
        {
            let ghost prev_deep = combined.deep_view();
            let ghost prev_v = combined@;
            combined.push(self.lines[i].clone());
            proof {
                assert forall|m: int|
                    0 <= m < i + 1 implies #[trigger] combined.deep_view()[m]
                    == self.lines.deep_view().take(i + 1)[m] by {
                    assert(prev_v.len() == i);
                    assert(combined@.len() == i + 1);
                    assert(combined.deep_view()[m] == combined@[m]@);
                    assert(self.lines.deep_view()[m] == self.lines@[m]@);
                    if m < i {
                        assert(combined@[m] == prev_v[m]);
                        assert(prev_deep[m] == prev_v[m]@);
                    } else {
                        assert(combined@[m] == self.lines@[i as int]);
                    }
                }
                assert(combined.deep_view() =~= self.lines.deep_view().take(i + 1));
            }
            i += 1;
        }
        proof {
            assert(combined.deep_view() =~~= self.lines.deep_view());
        }
        if !self.pending_line.as_str().is_empty() {
            combined.push(self.pending_line.clone());
        }
        let mut texts: Vec<Vec<String>> = Vec::new();
        texts.push(combined);
        self.view.texts = texts;
        self.view.wrap_cache = None;
        self.lines_dirty = false;
        proof {
            if old(self).pending_line@.len() > 0 {
                assert(self.view.texts.deep_view() =~~= seq![
                    old(self).lines.deep_view().push(old(self).pending_line@),
                ]);
            } else {
                assert(self.view.texts.deep_view() =~~= seq![old(self).lines.deep_view()]);
            }
        }
    }
}

/// ESC-prefixes a byte sequence under the Alt modifier.
fn with_alt_prefix(alt: bool, seq: Vec<u8>) -> (r: Vec<u8>)
    ensures
        r@ == alt_prefixed(alt, seq@),
{
    if alt {
        let mut prefixed: Vec<u8> = Vec::new();
        prefixed.push(0x1b);
        let mut rest = seq;
        prefixed.append(&mut rest);
        proof {
            assert(prefixed@ =~= alt_prefixed(true, seq@));
        }
        prefixed
    } else {
        seq
    }
}

/// Relies on `char::encode_utf8`: writes exactly the UTF-8 encoding of the
/// character, which vstd's UTF-8 model states as `encode_scalar`.
#[verifier::external_body]
fn char_utf8_bytes(c: char) -> (r: Vec<u8>)
    ensures
        r@ == encode_scalar(c as u32),
{
    let mut buf = [0u8; 4];
    c.encode_utf8(&mut buf).as_bytes().to_vec()
}

/// See [`min_schedule`].
fn min_opt(a: Option<u64>, b: Option<u64>) -> (r: Option<u64>)
    ensures
        r == min_schedule(a, b),
{
    match (a, b) {
        (Some(x), Some(y)) => if x <= y {
            Some(x)
        } else {
            Some(y)
        },
        (Some(x), None) => Some(x),
        (None, Some(y)) => Some(y),
        (None, None) => None,
    }
}

/// Lifecycle of the overlay: a completion notice moves a running overlay
/// from Running to Finished (an exit status exists from then on), and once
/// a render has happened after the finish and the auto-close delay has
/// elapsed, the next lifecycle check closes it: the state after
/// [`TerminalOverlay::after_event`] reports done. Escape closes at any
/// state at once: that is the first `ensures` clause of
/// [`TerminalOverlay::handle_key_event`].
pub proof fn lemma_lifecycle_auto_close(
    finished: TerminalOverlay,
    rendered: TerminalOverlay,
    code: i32,
    finish_ms: u64,
    area: Rect,
    page: Option<(usize, usize)>,
    resize: Option<(u16, u16)>,
    now_ms: u64,
)
    requires
        // What `mark_finished` at `finish_ms` guarantees of `finished`:
        finished.exit_code == Some(code),
        finished.finished_at == Some(finish_ms),
        // One render happened after that, on an area with a content row:
        render_rel(finished, rendered, area, page, resize),
        area.height > TERMINAL_HEADER_HEIGHT + TERMINAL_FOOTER_HEIGHT,
        // The delay has elapsed:
        now_ms >= finish_ms + TERMINAL_AUTO_CLOSE_DELAY_MS,
    ensures
        finished.exit_code is Some,
        rendered.rendered_after_finish,
        rendered.exit_code is Some,
        rendered.spec_should_auto_close(now_ms),
{
}

} // verus!
