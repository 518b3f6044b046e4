//! Bounded live-output buffers.
//!
//! Each in-flight command keeps one bounded byte tail per output stream. A
//! tail retains at most `LIVE_STREAM_TAIL_CAP_BYTES` bytes; on overflow the
//! oldest bytes are evicted first, so the retained bytes are always the
//! most-recently-pushed suffix of everything pushed so far. This structure
//! cannot fail; it can only truncate.

use std::collections::VecDeque;
use vstd::prelude::*;

use crate::text::lossy_string;
use crate::text::lossy_utf8;

verus! {

/// Byte budget of one stream's tail: keeps a terminal-width render affordable
/// for chatty commands without unbounded growth.
pub const LIVE_STREAM_TAIL_CAP_BYTES: usize = 8 * 1024;

/// Which output stream of the attached process produced a chunk.
#[derive(Clone, Copy, Debug, PartialEq, Eq, Structural)]
pub enum ExecOutputStream {
    Stdout,
    Stderr,
}

/// The suffix of `s` that a bounded tail retains: all of `s` if it fits the
/// cap, otherwise its last `LIVE_STREAM_TAIL_CAP_BYTES` bytes.
pub open spec fn retained_tail(s: Seq<u8>) -> Seq<u8> {
    if s.len() <= LIVE_STREAM_TAIL_CAP_BYTES {
        s
    } else {
        s.skip(s.len() - LIVE_STREAM_TAIL_CAP_BYTES)
    }
}

/// The retained bytes never exceed the cap and are a suffix of the input.
pub proof fn lemma_retained_tail_is_bounded_suffix(s: Seq<u8>)
    ensures
        retained_tail(s).len() <= LIVE_STREAM_TAIL_CAP_BYTES,
        retained_tail(s) == s.skip(s.len() - retained_tail(s).len()),
{
    assert(retained_tail(s) =~= s.skip(s.len() - retained_tail(s).len()));
}

/// Retention commutes with further pushes: evicting early loses nothing that
/// a single retention over the whole stream would have kept. Together with
/// the contract of [`LiveStreamTail::push`], this pins the buffer contents
/// after any sequence of pushes to the retained tail of the concatenated
/// stream.
pub proof fn lemma_retained_tail_compose(a: Seq<u8>, b: Seq<u8>)
    ensures
        retained_tail(retained_tail(a) + b) == retained_tail(a + b),
{
    assert(retained_tail(retained_tail(a) + b) =~= retained_tail(a + b));
}

/// Fixed-capacity byte tail of one output stream.
#[derive(Clone, Debug)]
pub struct LiveStreamTail {
    pub buf: VecDeque<u8>,
}

impl View for LiveStreamTail {
    type V = Seq<u8>;

    open spec fn view(&self) -> Seq<u8> {
        self.buf@
    }
}

impl Default for LiveStreamTail {
    fn default() -> (r: Self)
        ensures
            r@ == Seq::<u8>::empty(),
    {
        LiveStreamTail { buf: VecDeque::new() }
    }
}

impl LiveStreamTail {
    /// The tail's contents stay within the byte cap.
    pub open spec fn wf(&self) -> bool {
        self@.len() <= LIVE_STREAM_TAIL_CAP_BYTES
    }

    /// Appends `chunk` and evicts the oldest bytes beyond the cap.
    pub fn push(&mut self, chunk: &[u8])
        ensures
            final(self)@ == retained_tail(old(self)@ + chunk@),
            final(self).wf(),
    {
        let ghost full: Seq<u8> = self@ + chunk@;
        let mut i: usize = 0;
        while i < chunk.len()
            invariant
                i <= chunk@.len(),
                self@ == old(self)@ + chunk@.take(i as int),
            decreases chunk@.len() - i,
        {
            self.buf.push_back(chunk[i]);
            i += 1;
        }
        assert(self@ =~= full);
        let len = self.buf.len();
        if len > LIVE_STREAM_TAIL_CAP_BYTES {
            let excess = len - LIVE_STREAM_TAIL_CAP_BYTES;
            let mut j: usize = 0;
            while j < excess
                invariant
                    j <= excess,
                    excess == full.len() - LIVE_STREAM_TAIL_CAP_BYTES,
                    self@ == full.skip(j as int),
                decreases excess - j,
            {
                let ghost before = self@;
                self.buf.pop_front();
                assert(self@ =~= full.skip(j + 1));
                j += 1;
            }
        }
        assert(final(self)@ =~= retained_tail(old(self)@ + chunk@));
    }

    /// Empties the tail.
    pub fn clear(&mut self)
        ensures
            final(self)@ == Seq::<u8>::empty(),
    {
        self.buf.clear();
    }

    /// Rebuilds the tail with the same contents.
    pub fn duplicate(&self) -> (r: Self)
        ensures
            r@ == self@,
    {
        let mut buf: VecDeque<u8> = VecDeque::new();
        let n = self.buf.len();
        let mut i: usize = 0;
        while i < n
            invariant
                i <= n,
                n == self@.len(),
                buf@ == self@.take(i as int),
            decreases n - i,
        {
            buf.push_back(self.buf[i]);
            i += 1;
        }
        assert(buf@ =~= self@);
        LiveStreamTail { buf }
    }

    /// Best-effort decode of the current contents; see [`lossy_utf8`]. The
    /// decode is empty exactly when the tail is.
    pub fn as_string(&self) -> (r: String)
        ensures
            r@ == lossy_utf8(self@),
            r@.len() == 0 <==> self@.len() == 0,
    {
        let mut bytes: Vec<u8> = Vec::new();
        let n = self.buf.len();
        let mut i: usize = 0;
        while i < n
            invariant
                i <= n,
                n == self@.len(),
                bytes@ == self@.take(i as int),
            decreases n - i,
        {
            bytes.push(self.buf[i]);
            i += 1;
        }
        assert(bytes@ =~= self@);
        lossy_string(bytes.as_slice())
    }
}

/// Both bounded tails of one in-flight command, plus which stream produced
/// the most recent chunk (a display heuristic for a provisional exit status,
/// never an authoritative result).
#[derive(Clone, Debug)]
pub struct LiveCommandOutput {
    pub stdout: LiveStreamTail,
    pub stderr: LiveStreamTail,
    pub last_stream: Option<ExecOutputStream>,
}

impl Default for LiveCommandOutput {
    fn default() -> (r: Self)
        ensures
            r.stdout@ == Seq::<u8>::empty(),
            r.stderr@ == Seq::<u8>::empty(),
            r.last_stream is None,
    {
        LiveCommandOutput {
            stdout: LiveStreamTail::default(),
            stderr: LiveStreamTail::default(),
            last_stream: None,
        }
    }
}

/// Finalized output of one completed command.
#[derive(Clone, Debug)]
pub struct CommandOutput {
    pub exit_code: i32,
    pub stdout: String,
    pub stderr: String,
    pub formatted_output: String,
}

impl LiveCommandOutput {
    /// Rebuilds both tails with the same contents.
    pub fn duplicate(&self) -> (r: Self)
        ensures
            r.stdout@ == self.stdout@,
            r.stderr@ == self.stderr@,
            r.last_stream == self.last_stream,
    {
        LiveCommandOutput {
            stdout: self.stdout.duplicate(),
            stderr: self.stderr.duplicate(),
            last_stream: self.last_stream,
        }
    }

    /// Routes a chunk to the tail of its stream and records the stream.
    pub fn append(&mut self, stream: ExecOutputStream, chunk: &[u8])
        ensures
            final(self).last_stream == Some(stream),
            stream is Stdout ==> final(self).stdout@ == retained_tail(
                old(self).stdout@ + chunk@,
            ) && final(self).stderr == old(self).stderr,
            stream is Stderr ==> final(self).stderr@ == retained_tail(
                old(self).stderr@ + chunk@,
            ) && final(self).stdout == old(self).stdout,
    {
        match stream {
            ExecOutputStream::Stdout => self.stdout.push(chunk),
            ExecOutputStream::Stderr => self.stderr.push(chunk),
        }
        self.last_stream = Some(stream);
    }

    /// Empties both tails and forgets the last stream.
    pub fn clear(&mut self)
        ensures
            final(self).stdout@ == Seq::<u8>::empty(),
            final(self).stderr@ == Seq::<u8>::empty(),
            final(self).last_stream is None,
    {
        self.stdout.clear();
        self.stderr.clear();
        self.last_stream = None;
    }

    /// Snapshot of the live tails as a provisional output record: `None` when
    /// both tails are empty; otherwise the decoded tails with exit code 1 if
    /// the most recent chunk came from stderr, else 0.
    pub fn to_command_output(&self) -> (r: Option<CommandOutput>)
        ensures
            r is None <==> self.stdout@.len() == 0 && self.stderr@.len() == 0,
            r is Some ==> {
                &&& r.unwrap().stdout@ == lossy_utf8(self.stdout@)
                &&& r.unwrap().stderr@ == lossy_utf8(self.stderr@)
                &&& r.unwrap().exit_code == (if self.last_stream == Some(
                    ExecOutputStream::Stderr,
                ) {
                    1int
                } else {
                    0int
                })
                &&& r.unwrap().formatted_output@ == Seq::<char>::empty()
            },
    {
        let stdout = self.stdout.as_string();
        let stderr = self.stderr.as_string();

        if stdout.as_str().is_empty() && stderr.as_str().is_empty() {
            return None;
        }

        let exit_code: i32 = if matches!(self.last_stream, Some(ExecOutputStream::Stderr)) {
            1
        } else {
            0
        };

        Some(
            CommandOutput {
                exit_code,
                stdout,
                stderr,
                formatted_output: String::new(),
            },
        )
    }
}

} // verus!
