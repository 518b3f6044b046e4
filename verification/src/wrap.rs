//! Word wrapping of a single line to a column budget.
//!
//! A line that fits the width is kept whole. Otherwise the line breaks at
//! the last space within the budget (the space itself is consumed by the
//! break); a run with no space within the budget breaks hard at the width.
//! Widths are clamped to at least one column by the callers, so wrapping
//! always makes progress and every produced row fits the budget.

use vstd::prelude::*;

verus! {

/// Largest index `i <= w` (and within `s`) holding a space, scanning down
/// from `w`.
pub open spec fn last_break_upto(s: Seq<char>, w: int) -> Option<int>
    decreases w + 1,
{
    if w < 0 {
        None
    } else if w < s.len() && s[w] == ' ' {
        Some(w)
    } else {
        last_break_upto(s, w - 1)
    }
}

/// What `last_break_upto` selects: a space at or below `w`, with no space
/// after it up to `w`.
pub proof fn lemma_last_break_upto(s: Seq<char>, w: int)
    ensures
        match last_break_upto(s, w) {
            Some(i) => {
                &&& 0 <= i <= w
                &&& i < s.len()
                &&& s[i] == ' '
                &&& forall|m: int| i < m <= w && m < s.len() ==> s[m] != ' '
            },
            None => forall|m: int| 0 <= m <= w && m < s.len() ==> s[m] != ' ',
        },
    decreases w + 1,
{
    if w >= 0 && !(w < s.len() && s[w] == ' ') {
        lemma_last_break_upto(s, w - 1);
    }
}

/// With a space at `k`, and none in `(k, w]`, `last_break_upto` selects `k`.
pub proof fn lemma_last_break_upto_at(s: Seq<char>, w: int, k: int)
    requires
        0 <= k <= w,
        k < s.len(),
        s[k] == ' ',
        forall|m: int| k < m <= w && m < s.len() ==> s[m] != ' ',
    ensures
        last_break_upto(s, w) == Some(k),
    decreases w,
{
    if w > k {
        lemma_last_break_upto_at(s, w - 1, k);
    }
}

/// With no space at or below `w`, `last_break_upto` selects nothing.
pub proof fn lemma_last_break_upto_none(s: Seq<char>, w: int)
    requires
        forall|m: int| 0 <= m <= w && m < s.len() ==> s[m] != ' ',
    ensures
        last_break_upto(s, w) is None,
    decreases w + 1,
{
    if w >= 0 {
        lemma_last_break_upto_none(s, w - 1);
    }
}

/// The rows a single line wraps to at a budget of `w` columns.
pub open spec fn wrap_line_spec(s: Seq<char>, w: int) -> Seq<Seq<char>>
    recommends
        w >= 1,
    decreases s.len(),
    via wrap_line_spec_decreases
{
    if s.len() <= w || w < 1 {
        seq![s]
    } else {
        match last_break_upto(s, w) {
            Some(i) => seq![s.take(i)] + wrap_line_spec(s.skip(i + 1), w),
            None => seq![s.take(w)] + wrap_line_spec(s.skip(w), w),
        }
    }
}

#[via_fn]
proof fn wrap_line_spec_decreases(s: Seq<char>, w: int) {
    if !(s.len() <= w || w < 1) {
        lemma_last_break_upto(s, w);
    }
}

/// Every produced row fits the budget, and at least one row is produced.
pub proof fn lemma_wrap_line_spec_rows(s: Seq<char>, w: int)
    requires
        w >= 1,
    ensures
        wrap_line_spec(s, w).len() >= 1,
        s.len() <= w ==> wrap_line_spec(s, w) == seq![s],
        forall|i: int|
            0 <= i < wrap_line_spec(s, w).len() ==> (#[trigger] wrap_line_spec(s, w)[i]).len()
                <= w,
    decreases s.len(),
{
    if s.len() <= w {
    } else {
        lemma_last_break_upto(s, w);
        match last_break_upto(s, w) {
            Some(i) => {
                lemma_wrap_line_spec_rows(s.skip(i + 1), w);
                assert forall|m: int|
                    0 <= m < wrap_line_spec(s, w).len() implies (#[trigger] wrap_line_spec(
                    s,
                    w,
                )[m]).len() <= w by {
                    if m > 0 {
                        assert(wrap_line_spec(s, w)[m] == wrap_line_spec(s.skip(i + 1), w)[m - 1]);
                    }
                }
            },
            None => {
                lemma_wrap_line_spec_rows(s.skip(w), w);
                assert forall|m: int|
                    0 <= m < wrap_line_spec(s, w).len() implies (#[trigger] wrap_line_spec(
                    s,
                    w,
                )[m]).len() <= w by {
                    if m > 0 {
                        assert(wrap_line_spec(s, w)[m] == wrap_line_spec(s.skip(w), w)[m - 1]);
                    }
                }
            },
        }
    }
}

/// Wraps one line to rows of at most `width` columns.
pub fn wrap_line(line: &str, width: usize) -> (r: Vec<String>)
    requires
        width >= 1,
    ensures
        r.deep_view() == wrap_line_spec(line@, width as int),
    decreases line@.len(),
{
    let n = line.unicode_len();
    if n <= width {
        let mut out: Vec<String> = Vec::new();
        out.push(String::from_str(line));
        proof {
            assert(out.deep_view() =~= wrap_line_spec(line@, width as int));
        }
        return out;
    }
    // The line is longer than the budget: break at the last space within
    // it, or hard at the width when there is none.
    let (head, rest) = match find_break(line, width) {
        Some(j) => (line.substring_char(0, j), line.substring_char(j + 1, n)),
        None => (line.substring_char(0, width), line.substring_char(width, n)),
    };
    let mut out: Vec<String> = Vec::new();
    out.push(String::from_str(head));
    let mut tail = wrap_line(rest, width);
    out.append(&mut tail);
    proof {
        assert(out.deep_view() =~= wrap_line_spec(line@, width as int));
    }
    out
}

/// Scans down from `width` for the last space of the line within the budget.
fn find_break(line: &str, width: usize) -> (r: Option<usize>)
    requires
        1 <= width < line@.len(),
    ensures
        match r {
            Some(j) => j <= width && last_break_upto(line@, width as int) == Some(j as int),
            None => last_break_upto(line@, width as int) is None,
        },
{
    let mut j: usize = width;
    loop
        invariant
            width < line@.len(),
            j <= width,
            forall|m: int| j < m <= width ==> line@[m] != ' ',
        decreases j,
    {
        if line.get_char(j) == ' ' {
            proof {
                lemma_last_break_upto_at(line@, width as int, j as int);
            }
            return Some(j);
        }
        if j == 0 {
            proof {
                lemma_last_break_upto_none(line@, width as int);
            }
            return None;
        }
        j -= 1;
    }
}

} // verus!
