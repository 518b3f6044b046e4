//! Reflowable pager view with a width-keyed wrap cache.
//!
//! A [`PagerView`] holds an ordered list of text chunks, a scroll offset
//! whose maximum value means "track the bottom forever", and a lazily
//! rebuilt wrap cache. The cache is keyed on the wrap width and the chunk
//! count; any other change to the chunks is assumed to come with a count or
//! width change. Offsets are clamped at render time, never stored
//! pre-clamped, so shrinking content cannot leave an out-of-range offset.

use vstd::math::max;
use vstd::math::min;
use vstd::prelude::*;

use crate::keys::KeyCode;
use crate::keys::KeyEvent;
use crate::wrap::wrap_line;
use crate::wrap::wrap_line_spec;

verus! {

/// A rectangular screen region, in cells.
#[derive(Clone, Copy, Debug, PartialEq, Eq, Structural)]
pub struct Rect {
    pub x: u16,
    pub y: u16,
    pub width: u16,
    pub height: u16,
}

impl Rect {
    pub fn new(x: u16, y: u16, width: u16, height: u16) -> (r: Self)
        ensures
            r == (Rect { x, y, width, height }),
    {
        Rect { x, y, width, height }
    }
}

/// `a + b`, stopping at the top of `usize`.
pub open spec fn sat_add(a: int, b: int) -> int {
    min(a + b, usize::MAX as int)
}

/// `a - b`, stopping at zero.
pub open spec fn sat_sub(a: int, b: int) -> int {
    max(a - b, 0)
}

/// The wrap width actually used: at least one column.
pub open spec fn eff_width(w: u16) -> int {
    if w == 0 {
        1
    } else {
        w as int
    }
}

/// The rows one chunk's lines wrap to, in order.
pub open spec fn wrapped_chunk(lines: Seq<Seq<char>>, w: int) -> Seq<Seq<char>>
    decreases lines.len(),
{
    if lines.len() == 0 {
        Seq::empty()
    } else {
        wrapped_chunk(lines.drop_last(), w) + wrap_line_spec(lines.last(), w)
    }
}

/// The rows of the first `k` chunks, concatenated.
pub open spec fn wrapped_upto(texts: Seq<Seq<Seq<char>>>, w: int, k: int) -> Seq<Seq<char>>
    decreases k,
{
    if k <= 0 {
        Seq::empty()
    } else {
        wrapped_upto(texts, w, k - 1) + wrapped_chunk(texts[k - 1], w)
    }
}

/// Memoized wrap output: the width it was built for, the wrapped rows, the
/// row range each input chunk produced, and the chunk count it was built
/// against.
#[derive(Debug)]
pub struct WrapCache {
    pub width: u16,
    pub wrapped: Vec<String>,
    pub chunk_ranges: Vec<(usize, usize)>,
    pub base_len: usize,
}

/// The cache holds exactly the wrap of `texts` at its recorded width.
pub open spec fn cache_correct(c: WrapCache, texts: Seq<Seq<Seq<char>>>) -> bool {
    let w = c.width as int;
    &&& c.base_len == texts.len()
    &&& c.wrapped.deep_view() == wrapped_upto(texts, w, texts.len() as int)
    &&& c.chunk_ranges@.len() == texts.len()
    &&& forall|k: int|
        0 <= k < texts.len() ==> (#[trigger] c.chunk_ranges@[k]).0 == wrapped_upto(
            texts,
            w,
            k,
        ).len() && c.chunk_ranges@[k].1 == wrapped_upto(texts, w, k + 1).len()
}

/// Whether the cache must be rebuilt for a render at width `w` over
/// `n_chunks` chunks.
pub open spec fn needs_rebuild(cache: Option<WrapCache>, w: u16, n_chunks: int) -> bool {
    match cache {
        None => true,
        Some(c) => c.width as int != eff_width(w) || c.base_len != n_chunks,
    }
}

/// The offset after scrolling rows `lo..hi` into a viewport of height `h`
/// over `total` rows: up just enough when the range starts above the top,
/// down just enough when it ends below the bottom, otherwise unchanged.
pub open spec fn range_visible_offset(off: int, lo: int, hi: int, h: int, total: int) -> int {
    if h == 0 || total == 0 {
        off
    } else {
        let first = min(lo, total - 1);
        let last = min(sat_sub(hi, 1), total - 1);
        let top = min(off, total - 1);
        let bottom = sat_add(top, h - 1);
        if first < top {
            first
        } else if last > bottom {
            sat_sub(last, h - 1)
        } else {
            off
        }
    }
}

/// A scroll key's effect on the offset, given the page height `h`.
pub open spec fn nav_offset(code: KeyCode, off: int, h: int) -> int {
    match code {
        KeyCode::Up => sat_sub(off, 1),
        KeyCode::Down => sat_add(off, 1),
        KeyCode::PageUp => sat_sub(off, h),
        KeyCode::PageDown => sat_add(off, h),
        KeyCode::Char(_) => sat_add(off, h),
        KeyCode::Home => 0,
        KeyCode::End => usize::MAX as int,
        _ => off,
    }
}

/// Whether a key event scrolls the pager.
pub open spec fn is_nav_key(key: KeyEvent) -> bool {
    key.is_press_or_repeat() && match key.code {
        KeyCode::Up => true,
        KeyCode::Down => true,
        KeyCode::PageUp => true,
        KeyCode::PageDown => true,
        KeyCode::Char(c) => c == ' ',
        KeyCode::Home => true,
        KeyCode::End => true,
        _ => false,
    }
}

/// What one pager render leaves behind and hands back: `pre` to `post`
/// over `area`, returning the page bounds `r`.
pub open spec fn pager_render_rel(pre: PagerView, post: PagerView, area: Rect, r: (usize, usize)) -> bool {
    let content = PagerView::spec_scroll_area(area);
    let h = content.height as int;
    &&& post.texts == pre.texts
    &&& post.title == pre.title
    &&& post.pending_scroll_chunk is None
    &&& post.last_content_height == Some(content.height as usize)
    &&& post.wrap_cache is Some
    &&& (!needs_rebuild(pre.wrap_cache, content.width, pre.texts@.len() as int) ==> post.wrap_cache
        == pre.wrap_cache)
    &&& (needs_rebuild(pre.wrap_cache, content.width, pre.texts@.len() as int) ==> cache_correct(
        post.wrap_cache.unwrap(),
        pre.texts.deep_view(),
    ) && post.wrap_cache.unwrap().width as int == eff_width(content.width))
    &&& ({
        let c = post.wrap_cache.unwrap();
        let total = c.wrapped@.len() as int;
        let off0 = pre.scroll_offset as int;
        let off1 = match pre.pending_scroll_chunk {
            Some(idx) => if idx < c.chunk_ranges@.len() {
                range_visible_offset(
                    off0,
                    c.chunk_ranges@[idx as int].0 as int,
                    c.chunk_ranges@[idx as int].1 as int,
                    h,
                    total,
                )
            } else {
                off0
            },
            None => off0,
        };
        &&& post.scroll_offset == min(off1, sat_sub(total, h))
        &&& r.0 == post.scroll_offset
        &&& r.1 == min(r.0 + h, total)
    })
}

/// Scrollable view over a list of text chunks.
#[derive(Debug)]
pub struct PagerView {
    pub texts: Vec<Vec<String>>,
    pub scroll_offset: usize,
    pub title: String,
    pub wrap_cache: Option<WrapCache>,
    pub last_content_height: Option<usize>,
    /// If set, the next render scrolls this chunk into view.
    pub pending_scroll_chunk: Option<usize>,
}

impl PagerView {
    /// Whether the view tracks the bottom: either by the sentinel offset, or
    /// by an offset within one page of the end of the wrapped rows.
    pub open spec fn spec_is_scrolled_to_bottom(&self) -> bool {
        if self.scroll_offset == usize::MAX {
            true
        } else {
            match (self.wrap_cache, self.last_content_height) {
                (Some(c), Some(h)) => {
                    let total = c.wrapped@.len() as int;
                    total == 0 || self.scroll_offset >= total - min(h as int, total)
                },
                _ => false,
            }
        }
    }

    /// A fresh view with no cache built yet.
    pub fn new(texts: Vec<Vec<String>>, title: String, scroll_offset: usize) -> (r: Self)
        ensures
            r.texts == texts,
            r.scroll_offset == scroll_offset,
            r.title == title,
            r.wrap_cache is None,
            r.last_content_height is None,
            r.pending_scroll_chunk is None,
    {
        PagerView {
            texts,
            scroll_offset,
            title,
            wrap_cache: None,
            last_content_height: None,
            pending_scroll_chunk: None,
        }
    }

    /// The content region of a pager area: one row down for the header, two
    /// rows shorter for header and bottom bar.
    pub open spec fn spec_scroll_area(area: Rect) -> Rect {
        Rect {
            x: area.x,
            y: min(area.y as int + 1, u16::MAX as int) as u16,
            width: area.width,
            height: sat_sub(area.height as int, 2) as u16,
        }
    }

    /// See [`Self::spec_scroll_area`].
    pub fn scroll_area(&self, area: Rect) -> (r: Rect)
        ensures
            r == Self::spec_scroll_area(area),
    {
        let y = if area.y < u16::MAX {
            area.y + 1
        } else {
            u16::MAX
        };
        let height = if area.height >= 2 {
            area.height - 2
        } else {
            0
        };
        Rect { x: area.x, y, width: area.width, height }
    }

    /// Records the content height used by the last render.
    pub fn update_last_content_height(&mut self, height: u16)
        ensures
            *final(self) == (PagerView {
                last_content_height: Some(height as usize),
                ..*old(self)
            }),
    {
        self.last_content_height = Some(height as usize);
    }

    /// Rebuilds the wrap cache for `width` if the width or the chunk count
    /// changed since the last build; otherwise leaves the view untouched.
    pub fn ensure_wrapped(&mut self, width: u16)
        ensures
            !needs_rebuild(old(self).wrap_cache, width, old(self).texts@.len() as int)
                ==> *final(self) == *old(self),
            needs_rebuild(old(self).wrap_cache, width, old(self).texts@.len() as int) ==> {
                &&& final(self).wrap_cache is Some
                &&& cache_correct(final(self).wrap_cache.unwrap(), final(self).texts.deep_view())
                &&& final(self).wrap_cache.unwrap().width as int == eff_width(width)
                &&& *final(self) == (PagerView {
                    wrap_cache: final(self).wrap_cache,
                    ..*old(self)
                })
            },
    {
        let width = if width == 0 {
            1
        } else {
            width
        };
        let needs = match &self.wrap_cache {
            Some(c) => c.width != width || c.base_len != self.texts.len(),
            None => true,
        };
        if !needs {
            return ;
        }
        let ghost t = self.texts.deep_view();
        let ghost w = width as int;
        let mut wrapped: Vec<String> = Vec::new();
        let mut chunk_ranges: Vec<(usize, usize)> = Vec::new();
        let n = self.texts.len();
        let mut i: usize = 0;
        while i < n
            invariant
                i <= n,
                n == self.texts@.len(),
                t == self.texts.deep_view(),
                w == width as int,
                w >= 1,
                *self == *old(self),
                wrapped.deep_view() == wrapped_upto(t, w, i as int),
                chunk_ranges@.len() == i,
                forall|k: int|
                    0 <= k < i ==> (#[trigger] chunk_ranges@[k]).0 == wrapped_upto(t, w, k).len()
                        && chunk_ranges@[k].1 == wrapped_upto(t, w, k + 1).len(),
            decreases n - i,
        {
            let start = wrapped.len();
            let chunk_len = self.texts[i].len();
            let ghost chunk = self.texts@[i as int].deep_view();
            proof {
                assert(chunk == t[i as int]);
            }
            let mut j: usize = 0;
            while j < chunk_len
                invariant
                    j <= chunk_len,
                    i < n,
                    n == self.texts@.len(),
                    t == self.texts.deep_view(),
                    chunk == t[i as int],
                    chunk_len == chunk.len(),
                    chunk == self.texts@[i as int].deep_view(),
                    w == width as int,
                    w >= 1,
                    width >= 1,
                    wrapped.deep_view() == wrapped_upto(t, w, i as int) + wrapped_chunk(
                        chunk.take(j as int),
                        w,
                    ),
                decreases chunk_len - j,
            {
                let ghost before = wrapped.deep_view();
                let mut rows = wrap_line(self.texts[i][j].as_str(), width as usize);
                proof {
                    assert(self.texts@[i as int]@[j as int]@ == chunk[j as int]);
                }
                wrapped.append(&mut rows);
                proof {
                    assert(chunk.take(j + 1).drop_last() =~= chunk.take(j as int));
                    assert(chunk.take(j + 1).last() == chunk[j as int]);
                    assert(wrapped.deep_view() =~= before + wrap_line_spec(chunk[j as int], w));
                    assert(wrapped.deep_view() =~= wrapped_upto(t, w, i as int) + wrapped_chunk(
                        chunk.take(j + 1),
                        w,
                    ));
                }
                j += 1;
            }
            let end = wrapped.len();
            chunk_ranges.push((start, end));
            proof {
                assert(chunk.take(chunk_len as int) =~= chunk);
                assert(wrapped.deep_view() =~= wrapped_upto(t, w, i + 1));
            }
            i += 1;
        }
        self.wrap_cache = Some(WrapCache { width, wrapped, chunk_ranges, base_len: n });
    }

    /// The wrapped rows of the current cache.
    pub fn cached(&self) -> (r: &Vec<String>)
        requires
            self.wrap_cache is Some,
        ensures
            r == &self.wrap_cache.unwrap().wrapped,
    {
        &self.wrap_cache.as_ref().unwrap().wrapped
    }

    /// See [`Self::spec_is_scrolled_to_bottom`].
    pub fn is_scrolled_to_bottom(&self) -> (r: bool)
        ensures
            r == self.spec_is_scrolled_to_bottom(),
    {
        if self.scroll_offset == usize::MAX {
            return true;
        }
        let cache = match &self.wrap_cache {
            Some(c) => c,
            None => {
                return false;
            },
        };
        let height = match self.last_content_height {
            Some(h) => h,
            None => {
                return false;
            },
        };
        let total = cache.wrapped.len();
        if total == 0 {
            return true;
        }
        let visible = if height < total {
            height
        } else {
            total
        };
        self.scroll_offset >= total - visible
    }

    /// Requests that the given chunk be scrolled into view on the next
    /// render, once wrapping is up to date for whatever width it uses.
    pub fn scroll_chunk_into_view(&mut self, chunk_index: usize)
        ensures
            *final(self) == (PagerView {
                pending_scroll_chunk: Some(chunk_index),
                ..*old(self)
            }),
    {
        self.pending_scroll_chunk = Some(chunk_index);
    }

    /// Adjusts the offset minimally so rows `lo..hi` are visible; see
    /// [`range_visible_offset`].
    pub fn ensure_range_visible(
        &mut self,
        lo: usize,
        hi: usize,
        viewport_height: usize,
        total_wrapped: usize,
    )
        ensures
            *final(self) == (PagerView {
                scroll_offset: range_visible_offset(
                    old(self).scroll_offset as int,
                    lo as int,
                    hi as int,
                    viewport_height as int,
                    total_wrapped as int,
                ) as usize,
                ..*old(self)
            }),
    {
        if viewport_height == 0 || total_wrapped == 0 {
            return ;
        }
        let first = if lo < total_wrapped - 1 {
            lo
        } else {
            total_wrapped - 1
        };
        let hi1 = if hi >= 1 {
            hi - 1
        } else {
            0
        };
        let last = if hi1 < total_wrapped - 1 {
            hi1
        } else {
            total_wrapped - 1
        };
        let current_top = if self.scroll_offset < total_wrapped - 1 {
            self.scroll_offset
        } else {
            total_wrapped - 1
        };
        let current_bottom = if current_top <= usize::MAX - (viewport_height - 1) {
            current_top + (viewport_height - 1)
        } else {
            usize::MAX
        };
        if first < current_top {
            self.scroll_offset = first;
        } else if last > current_bottom {
            self.scroll_offset = last - (viewport_height - 1);
        }
    }

    /// Prepares one render over `area`: records the content height, brings
    /// the wrap cache up to date, satisfies any pending chunk-scroll
    /// request, clamps the offset, and returns the half-open row range of
    /// the visible page.
    pub fn render(&mut self, area: Rect) -> (r: (usize, usize))
        ensures
            pager_render_rel(*old(self), *final(self), area, r),
    {
        let content = self.scroll_area(area);
        self.update_last_content_height(content.height);
        self.ensure_wrapped(content.width);
        let h = content.height as usize;
        let pending = self.pending_scroll_chunk;
        self.pending_scroll_chunk = None;
        let (total, range) = {
            let c = self.wrap_cache.as_ref().unwrap();
            let total = c.wrapped.len();
            let range = match pending {
                Some(idx) => if idx < c.chunk_ranges.len() {
                    Some(c.chunk_ranges[idx])
                } else {
                    None
                },
                None => None,
            };
            (total, range)
        };
        if let Some((lo, hi)) = range {
            self.ensure_range_visible(lo, hi, h, total);
        }
        let max_scroll = if total >= h {
            total - h
        } else {
            0
        };
        if self.scroll_offset > max_scroll {
            self.scroll_offset = max_scroll;
        }
        let start = self.scroll_offset;
        let end = if h <= total - start {
            start + h
        } else {
            total
        };
        (start, end)
    }

    /// Applies one scroll key over the page height of `viewport`; reports
    /// whether the key was a scroll key (and a redraw is due).
    pub fn handle_key_event(&mut self, key: KeyEvent, viewport: Rect) -> (r: bool)
        ensures
            r == is_nav_key(key),
            !is_nav_key(key) ==> *final(self) == *old(self),
            is_nav_key(key) ==> *final(self) == (PagerView {
                scroll_offset: nav_offset(
                    key.code,
                    old(self).scroll_offset as int,
                    Self::spec_scroll_area(viewport).height as int,
                ) as usize,
                ..*old(self)
            }),
    {
        if !(matches!(key.kind, crate::keys::KeyEventKind::Press) || matches!(
            key.kind,
            crate::keys::KeyEventKind::Repeat,
        )) {
            return false;
        }
        let page = self.scroll_area(viewport).height as usize;
        match key.code {
            KeyCode::Up => {
                self.scroll_offset = if self.scroll_offset >= 1 {
                    self.scroll_offset - 1
                } else {
                    0
                };
                true
            },
            KeyCode::Down => {
                self.scroll_offset = if self.scroll_offset < usize::MAX {
                    self.scroll_offset + 1
                } else {
                    usize::MAX
                };
                true
            },
            KeyCode::PageUp => {
                self.scroll_offset = if self.scroll_offset >= page {
                    self.scroll_offset - page
                } else {
                    0
                };
                true
            },
            KeyCode::PageDown => {
                self.scroll_offset = if self.scroll_offset <= usize::MAX - page {
                    self.scroll_offset + page
                } else {
                    usize::MAX
                };
                true
            },
            KeyCode::Char(c) => {
                if c == ' ' {
                    self.scroll_offset = if self.scroll_offset <= usize::MAX - page {
                        self.scroll_offset + page
                    } else {
                        usize::MAX
                    };
                    true
                } else {
                    false
                }
            },
            KeyCode::Home => {
                self.scroll_offset = 0;
                true
            },
            KeyCode::End => {
                self.scroll_offset = usize::MAX;
                true
            },
            _ => false,
        }
    }

    /// How far down the view is, as a rounded percentage: 100 when
    /// everything fits, else the clamped offset against the maximum scroll.
    pub fn scroll_percent(&self, content_height: usize) -> (r: u8)
        requires
            self.wrap_cache is Some,
        ensures
            r as int == spec_scroll_percent(
                self.scroll_offset as int,
                self.wrap_cache.unwrap().wrapped@.len() as int,
                content_height as int,
            ),
            r <= 100,
    {
        let total = self.wrap_cache.as_ref().unwrap().wrapped.len();
        if total == 0 {
            return 100;
        }
        let max_scroll = if total >= content_height {
            total - content_height
        } else {
            0
        };
        if max_scroll == 0 {
            return 100;
        }
        let off = if self.scroll_offset < max_scroll {
            self.scroll_offset
        } else {
            max_scroll
        };
        let pct: u128 = (200u128 * (off as u128) + (max_scroll as u128)) / (2u128 * (
        max_scroll as u128));
        proof {
            let a = off as int;
            let m = max_scroll as int;
            assert((a <= m && m >= 1) ==> (200 * a + m) / (2 * m) <= 100) by (nonlinear_arith);
            assert(pct as int == (200 * a + m) / (2 * m));
        }
        pct as u8
    }
}

/// Scroll position as a percentage, rounding half up.
pub open spec fn spec_scroll_percent(off: int, total: int, h: int) -> int {
    if total == 0 {
        100
    } else {
        let max_scroll = sat_sub(total, h);
        if max_scroll == 0 {
            100
        } else {
            (200 * min(off, max_scroll) + max_scroll) / (2 * max_scroll)
        }
    }
}


/// Wrap-cache rebuilds are idempotent: a cache just built for `width` over
/// the current chunks is still valid for `width`, so a second
/// [`PagerView::ensure_wrapped`] with the same width and unchanged chunks
/// meets the no-rebuild case of its contract and leaves the view — wrapped
/// rows and chunk ranges included — exactly as it is.
pub proof fn lemma_ensure_wrapped_idempotent(v: PagerView, width: u16)
    requires
        v.wrap_cache is Some,
        cache_correct(v.wrap_cache.unwrap(), v.texts.deep_view()),
        v.wrap_cache.unwrap().width as int == eff_width(width),
    ensures
        !needs_rebuild(v.wrap_cache, width, v.texts@.len() as int),
{
    assert(v.texts.deep_view().len() == v.texts@.len());
}

/// A view whose offset was clamped to the maximum scroll — what a render
/// does to one that entered tracking the bottom — reports "at bottom".
pub proof fn lemma_clamped_offset_is_bottom(v: PagerView, h: usize)
    requires
        v.wrap_cache is Some,
        v.last_content_height == Some(h),
        v.scroll_offset as int == sat_sub(v.wrap_cache.unwrap().wrapped@.len() as int, h as int),
    ensures
        v.spec_is_scrolled_to_bottom(),
{
}

/// The bottom-tracking sentinel always reports "at bottom", whatever the
/// content or viewport.
pub proof fn lemma_bottom_sentinel(v: PagerView)
    requires
        v.scroll_offset == usize::MAX,
    ensures
        v.spec_is_scrolled_to_bottom(),
{
}

/// A render entered while tracking the bottom leaves the view reporting
/// "at bottom", however tall the content is.
pub proof fn lemma_render_from_bottom(pre: PagerView, post: PagerView, area: Rect, r: (
    usize,
    usize,
))
    requires
        pager_render_rel(pre, post, area, r),
        pre.scroll_offset == usize::MAX,
        pre.pending_scroll_chunk is None,
    ensures
        post.spec_is_scrolled_to_bottom(),
{
    let c = post.wrap_cache.unwrap();
    let total = c.wrapped@.len() as int;
    let h = PagerView::spec_scroll_area(area).height as int;
    if post.scroll_offset != usize::MAX {
        assert(post.scroll_offset as int == sat_sub(total, h));
        lemma_clamped_offset_is_bottom(post, PagerView::spec_scroll_area(area).height as usize);
    } else {
        lemma_bottom_sentinel(post);
    }
}

} // verus!
