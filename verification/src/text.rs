//! Byte-to-text conversion at the edge of the library, and small verified
//! helpers over strings.
//!
//! Process output arrives as raw bytes. The library never fails on malformed
//! bytes: decoding is best-effort, with invalid sequences replaced. The decode
//! itself is done by the standard library; on valid UTF-8 its result is pinned
//! exactly by `vstd`'s UTF-8 model, and on arbitrary bytes it is a fixed
//! function of the bytes, named `lossy_utf8`.

use vstd::prelude::*;
use vstd::utf8::decode_utf8;
use vstd::utf8::valid_utf8;

verus! {

/// What the standard library's best-effort UTF-8 decode returns for a given
/// byte sequence. It depends on the bytes alone.
pub uninterp spec fn lossy_utf8(bytes: Seq<u8>) -> Seq<char>;

/// Relies on `String::from_utf8_lossy`: valid UTF-8 decodes to exactly the
/// characters it encodes; invalid sequences are replaced with the
/// replacement character rather than dropped, so the result is empty
/// exactly when the input is; and any byte sequence decodes to a string
/// that is a function of the bytes alone.
#[verifier::external_body]
pub fn lossy_string(bytes: &[u8]) -> (r: String)
    ensures
        r@ == lossy_utf8(bytes@),
        valid_utf8(bytes@) ==> r@ == decode_utf8(bytes@),
        r@.len() == 0 <==> bytes@.len() == 0,
{
    String::from_utf8_lossy(bytes).into_owned()
}

/// Whether a character ends a line. Carriage returns are normalized to line
/// feeds, so both end a line.
pub open spec fn is_line_break(c: char) -> bool {
    c == '\n' || c == '\r'
}

/// Folds `s` into its complete lines and the trailing pending segment: every
/// line-break character ends a line (the break itself is dropped), and
/// whatever follows the last break is pending.
pub open spec fn split_state(s: Seq<char>) -> (Seq<Seq<char>>, Seq<char>)
    decreases s.len(),
{
    if s.len() == 0 {
        (Seq::empty(), Seq::empty())
    } else {
        let (lines, pending) = split_state(s.drop_last());
        let c = s.last();
        if is_line_break(c) {
            (lines.push(pending), Seq::empty())
        } else {
            (lines, pending.push(c))
        }
    }
}

/// The complete lines of `s`.
pub open spec fn complete_lines(s: Seq<char>) -> Seq<Seq<char>> {
    split_state(s).0
}

/// What remains after the last line break of `s`.
pub open spec fn pending_rest(s: Seq<char>) -> Seq<char> {
    split_state(s).1
}

/// All lines of `s`: the complete ones, plus the trailing segment when it is
/// not empty. This is how a finished output snapshot is read.
pub open spec fn snapshot_lines(s: Seq<char>) -> Seq<Seq<char>> {
    if pending_rest(s).len() > 0 {
        complete_lines(s).push(pending_rest(s))
    } else {
        complete_lines(s)
    }
}

/// Splits `s` into its complete lines and the trailing pending segment, as
/// [`split_state`] describes.
pub fn split_lines(s: &str) -> (r: (Vec<String>, String))
    ensures
        r.0.deep_view() == complete_lines(s@),
        r.1@ == pending_rest(s@),
{
    let n = s.unicode_len();
    let mut lines: Vec<String> = Vec::new();
    let mut start: usize = 0;
    let mut i: usize = 0;
    while i < n
        invariant
            n == s@.len(),
            start <= i <= n,
            lines.deep_view() == complete_lines(s@.take(i as int)),
            s@.subrange(start as int, i as int) == pending_rest(s@.take(i as int)),
        decreases n - i,
    {
        let c = s.get_char(i);
        proof {
            assert(s@.take(i + 1).drop_last() =~= s@.take(i as int));
            assert(s@.take(i + 1).last() == s@[i as int]);
        }
        if c == '\n' || c == '\r' {
            lines.push(String::from_str(s.substring_char(start, i)));
            start = i + 1;
            proof {
                assert(lines.deep_view() =~= complete_lines(s@.take(i + 1)));
                assert(s@.subrange(start as int, i + 1) =~= pending_rest(s@.take(i + 1)));
            }
        } else {
            proof {
                assert(s@.subrange(start as int, i + 1) =~= pending_rest(s@.take(i + 1)));
            }
        }
        i += 1;
    }
    let pending = String::from_str(s.substring_char(start, n));
    proof {
        assert(s@.take(n as int) =~= s@);
    }
    (lines, pending)
}

/// Character-by-character string comparison, so that call identifiers can be
/// matched without leaning on an unspecified `PartialEq` impl.
pub fn str_eq(a: &str, b: &str) -> (r: bool)
    ensures
        r == (a@ == b@),
{
    let a_len = a.unicode_len();
    let b_len = b.unicode_len();
    if a_len != b_len {
        assert(a@ != b@);
        return false;
    }
    let mut i: usize = 0;
    while i < a_len
        invariant
            i <= a_len,
            a_len == a@.len(),
            a_len == b@.len(),
            forall|j: int| 0 <= j < i ==> a@[j] == b@[j],
        decreases a_len - i,
    {
        if a.get_char(i) != b.get_char(i) {
            return false;
        }
        i += 1;
    }
    proof {
        assert(a@ =~= b@);
    }
    true
}

} // verus!
