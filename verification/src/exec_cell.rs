//! Exec-call aggregation.
//!
//! An [`ExecCell`] groups related command invocations into one display unit.
//! A new call may be appended only while the cell is purely exploratory
//! (every parsed sub-command reads, lists or searches) and the candidate is
//! exploratory itself; otherwise the caller starts a new cell. Completion and
//! live-chunk routing always resolve to the most recently added still-open
//! call with a matching identifier, so a call identifier reused across
//! retries within one cell resolves in last-opened order, and a stale
//! notification is a silent no-op.

use vstd::prelude::*;

use crate::live_buffer::CommandOutput;
use crate::live_buffer::ExecOutputStream;
use crate::live_buffer::LiveCommandOutput;
use crate::live_buffer::retained_tail;
use crate::text::str_eq;

verus! {

/// Structured classification of one sub-command of a command line, as parsed
/// by the host. Only the variant matters to this library: the first three are
/// read-only exploration, everything else is not.
#[derive(Clone, Debug)]
pub enum ParsedCommand {
    Read { name: String },
    ListFiles { cmd: String },
    Search { query: String },
    Unknown { cmd: String },
}

/// One command invocation within an aggregated display cell. Times are
/// milliseconds on the host's monotonic clock. Exactly one of `start_time`
/// (while running) and `duration` (once completed) is present.
#[derive(Clone, Debug)]
pub struct ExecCall {
    pub call_id: String,
    pub command: Vec<String>,
    pub parsed: Vec<ParsedCommand>,
    pub output: Option<CommandOutput>,
    pub start_time: Option<u64>,
    pub duration: Option<u64>,
    pub live_output: LiveCommandOutput,
}

/// An ordered, append-only-while-open sequence of calls forming one display
/// unit.
#[derive(Clone, Debug)]
pub struct ExecCell {
    pub calls: Vec<ExecCall>,
}

/// Whether one parsed sub-command is read-only exploration.
pub open spec fn parsed_is_exploratory(p: ParsedCommand) -> bool {
    p is Read || p is ListFiles || p is Search
}

/// Whether a parse classifies a call as exploratory: non-empty and made of
/// read/list/search sub-commands only.
pub open spec fn exploring_parsed(parsed: Seq<ParsedCommand>) -> bool {
    parsed.len() > 0 && forall|i: int| 0 <= i < parsed.len() ==> parsed_is_exploratory(parsed[i])
}

/// Equality on every observable part of a call: identifier, command words,
/// parse, output record, timing, and live-buffer contents.
pub open spec fn call_like(a: ExecCall, b: ExecCall) -> bool {
    &&& b.call_id == a.call_id
    &&& b.command@ == a.command@
    &&& b.parsed@ == a.parsed@
    &&& b.output == a.output
    &&& b.start_time == a.start_time
    &&& b.duration == a.duration
    &&& b.live_output.stdout@ == a.live_output.stdout@
    &&& b.live_output.stderr@ == a.live_output.stderr@
    &&& b.live_output.last_stream == a.live_output.last_stream
}

/// Index of the most recently added call whose identifier is `id` and that is
/// still open (has no output).
pub open spec fn last_open_match(calls: Seq<ExecCall>, id: Seq<char>) -> Option<int>
    decreases calls.len(),
{
    if calls.len() == 0 {
        None
    } else if calls.last().call_id@ == id && calls.last().output is None {
        Some(calls.len() - 1)
    } else {
        last_open_match(calls.drop_last(), id)
    }
}

/// Index of the first open call, if any.
pub open spec fn first_open(calls: Seq<ExecCall>) -> Option<int>
    decreases calls.len(),
{
    if calls.len() == 0 {
        None
    } else if calls.first().output is None {
        Some(0)
    } else {
        match first_open(calls.drop_first()) {
            Some(i) => Some(i + 1),
            None => None,
        }
    }
}

/// What `last_open_match` selects: an open matching index after which no
/// call both matches and is open.
pub proof fn lemma_last_open_match(calls: Seq<ExecCall>, id: Seq<char>)
    ensures
        match last_open_match(calls, id) {
            Some(k) => {
                &&& 0 <= k < calls.len()
                &&& calls[k].call_id@ == id
                &&& calls[k].output is None
                &&& forall|m: int|
                    k < m < calls.len() ==> !(calls[m].call_id@ == id
                        && calls[m].output is None)
            },
            None => forall|m: int|
                0 <= m < calls.len() ==> !(calls[m].call_id@ == id && calls[m].output is None),
        },
    decreases calls.len(),
{
    if calls.len() > 0 && !(calls.last().call_id@ == id && calls.last().output is None) {
        let d = calls.drop_last();
        lemma_last_open_match(d, id);
        assert forall|m: int| 0 <= m < d.len() implies #[trigger] calls[m] == d[m] by {}
        assert(last_open_match(calls, id) == last_open_match(d, id));
    }
}

/// Completion resolves to the later of two open calls sharing an
/// identifier: with an open matching call at `j`, the selected index is at
/// least `j`, so any earlier call is left untouched by
/// [`ExecCell::complete_call`].
pub proof fn lemma_complete_finalizes_latest(calls: Seq<ExecCall>, id: Seq<char>, j: int)
    requires
        0 <= j < calls.len(),
        calls[j].call_id@ == id,
        calls[j].output is None,
    ensures
        last_open_match(calls, id) is Some,
        last_open_match(calls, id).unwrap() >= j,
    decreases calls.len(),
{
    if !(calls.last().call_id@ == id && calls.last().output is None) {
        let d = calls.drop_last();
        assert(d[j] == calls[j]);
        lemma_complete_finalizes_latest(d, id, j);
        assert(last_open_match(calls, id) == last_open_match(d, id));
    }
}

/// A fresh, open call: no output, no duration, empty live buffers, started at
/// `now_ms`.
pub open spec fn fresh_call(
    c: ExecCall,
    call_id: String,
    command: Seq<String>,
    parsed: Seq<ParsedCommand>,
    now_ms: u64,
) -> bool {
    &&& c.call_id == call_id
    &&& c.command@ == command
    &&& c.parsed@ == parsed
    &&& c.output is None
    &&& c.start_time == Some(now_ms)
    &&& c.duration is None
    &&& c.live_output.stdout@ == Seq::<u8>::empty()
    &&& c.live_output.stderr@ == Seq::<u8>::empty()
    &&& c.live_output.last_stream is None
}

/// A call finalized by teardown: exit code 1, empty outputs, duration derived
/// from the elapsed time, live buffers cleared; everything else kept.
pub open spec fn failed_call(c: ExecCall, was: ExecCall, now_ms: u64) -> bool {
    &&& c.call_id == was.call_id
    &&& c.command@ == was.command@
    &&& c.parsed@ == was.parsed@
    &&& c.output is Some
    &&& c.output.unwrap().exit_code == 1
    &&& c.output.unwrap().stdout@ == Seq::<char>::empty()
    &&& c.output.unwrap().stderr@ == Seq::<char>::empty()
    &&& c.output.unwrap().formatted_output@ == Seq::<char>::empty()
    &&& c.start_time is None
    &&& c.duration == Some(elapsed_since(was.start_time, now_ms))
    &&& c.live_output.stdout@ == Seq::<u8>::empty()
    &&& c.live_output.stderr@ == Seq::<u8>::empty()
    &&& c.live_output.last_stream is None
}

/// Elapsed milliseconds since an optional start, zero when absent or when the
/// clock reads earlier than the start.
pub open spec fn elapsed_since(start: Option<u64>, now_ms: u64) -> u64 {
    match start {
        Some(st) => if now_ms >= st {
            (now_ms - st) as u64
        } else {
            0u64
        },
        None => 0u64,
    }
}

/// Rebuilds one parsed sub-command as an equal value.
fn duplicate_parsed(p: &ParsedCommand) -> (r: ParsedCommand)
    ensures
        r == *p,
{
    match p {
        ParsedCommand::Read { name } => ParsedCommand::Read { name: name.clone() },
        ParsedCommand::ListFiles { cmd } => ParsedCommand::ListFiles { cmd: cmd.clone() },
        ParsedCommand::Search { query } => ParsedCommand::Search { query: query.clone() },
        ParsedCommand::Unknown { cmd } => ParsedCommand::Unknown { cmd: cmd.clone() },
    }
}

/// Rebuilds a call so that every observable part is kept.
fn duplicate_call(c: &ExecCall) -> (r: ExecCall)
    ensures
        call_like(*c, r),
{
    let mut command: Vec<String> = Vec::new();
    let mut k: usize = 0;
    while k < c.command.len()
        invariant
            k <= c.command@.len(),
            command@ == c.command@.take(k as int),
        decreases c.command@.len() - k,
    {
        command.push(c.command[k].clone());
        k += 1;
    }
    assert(command@ =~= c.command@);

    let mut parsed: Vec<ParsedCommand> = Vec::new();
    let mut k: usize = 0;
    while k < c.parsed.len()
        invariant
            k <= c.parsed@.len(),
            parsed@ == c.parsed@.take(k as int),
        decreases c.parsed@.len() - k,
    {
        parsed.push(duplicate_parsed(&c.parsed[k]));
        k += 1;
    }
    assert(parsed@ =~= c.parsed@);

    let output: Option<CommandOutput> = match &c.output {
        Some(o) => Some(
            CommandOutput {
                exit_code: o.exit_code,
                stdout: o.stdout.clone(),
                stderr: o.stderr.clone(),
                formatted_output: o.formatted_output.clone(),
            },
        ),
        None => None,
    };

    ExecCall {
        call_id: c.call_id.clone(),
        command,
        parsed,
        output,
        start_time: c.start_time,
        duration: c.duration,
        live_output: c.live_output.duplicate(),
    }
}

impl ExecCell {
    /// Whether one call is exploratory, purely a function of its parse.
    pub open spec fn spec_is_exploring_call(call: ExecCall) -> bool {
        exploring_parsed(call.parsed@)
    }

    /// Whether every call of the cell is exploratory.
    pub open spec fn spec_is_exploring_cell(&self) -> bool {
        forall|i: int|
            0 <= i < self.calls@.len() ==> Self::spec_is_exploring_call(#[trigger] self.calls@[i])
    }

    /// A cell of one call.
    pub fn new(call: ExecCall) -> (r: Self)
        ensures
            r.calls@ == seq![call],
    {
        let r = ExecCell { calls: vec![call] };
        proof {
            assert(r.calls@ =~= seq![call]);
        }
        r
    }

    /// The calls of the cell, oldest first.
    pub fn iter_calls(&self) -> (r: &Vec<ExecCall>)
        ensures
            r@ == self.calls@,
    {
        &self.calls
    }

    /// Whether the candidate call is exploratory.
    pub fn is_exploring_call(call: &ExecCall) -> (r: bool)
        ensures
            r == Self::spec_is_exploring_call(*call),
    {
        if call.parsed.len() == 0 {
            return false;
        }
        let mut i: usize = 0;
        while i < call.parsed.len()
            invariant
                i <= call.parsed@.len(),
                forall|j: int| 0 <= j < i ==> parsed_is_exploratory(call.parsed@[j]),
            decreases call.parsed@.len() - i,
        {
            let ok = match &call.parsed[i] {
                ParsedCommand::Read { .. } => true,
                ParsedCommand::ListFiles { .. } => true,
                ParsedCommand::Search { .. } => true,
                ParsedCommand::Unknown { .. } => false,
            };
            if !ok {
                return false;
            }
            i += 1;
        }
        true
    }

    /// Whether every call of the cell is exploratory.
    pub fn is_exploring_cell(&self) -> (r: bool)
        ensures
            r == self.spec_is_exploring_cell(),
    {
        let mut i: usize = 0;
        while i < self.calls.len()
            invariant
                i <= self.calls@.len(),
                forall|j: int|
                    0 <= j < i ==> Self::spec_is_exploring_call(#[trigger] self.calls@[j]),
            decreases self.calls@.len() - i,
        {
            if !Self::is_exploring_call(&self.calls[i]) {
                return false;
            }
            i += 1;
        }
        true
    }

    /// A new cell with the candidate call appended, only when the cell is
    /// exploratory and the candidate's parse is exploratory too; otherwise
    /// nothing, and this cell is left as it is.
    pub fn with_added_call(
        &self,
        call_id: String,
        command: Vec<String>,
        parsed: Vec<ParsedCommand>,
        now_ms: u64,
    ) -> (r: Option<Self>)
        ensures
            r is Some <==> self.spec_is_exploring_cell() && exploring_parsed(parsed@),
            r is Some ==> {
                let cell = r.unwrap();
                &&& cell.calls@.len() == self.calls@.len() + 1
                &&& forall|i: int|
                    0 <= i < self.calls@.len() ==> call_like(
                        self.calls@[i],
                        #[trigger] cell.calls@[i],
                    )
                &&& fresh_call(cell.calls@.last(), call_id, command@, parsed@, now_ms)
            },
    {
        let call = ExecCall {
            call_id,
            command,
            parsed,
            output: None,
            start_time: Some(now_ms),
            duration: None,
            live_output: LiveCommandOutput::default(),
        };
        if self.is_exploring_cell() && Self::is_exploring_call(&call) {
            let mut calls: Vec<ExecCall> = Vec::new();
            let mut i: usize = 0;
            while i < self.calls.len()
                invariant
                    i <= self.calls@.len(),
                    calls@.len() == i,
                    forall|j: int|
                        0 <= j < i ==> call_like(self.calls@[j], #[trigger] calls@[j]),
                decreases self.calls@.len() - i,
            {
                calls.push(duplicate_call(&self.calls[i]));
                i += 1;
            }
            calls.push(call);
            Some(ExecCell { calls })
        } else {
            None
        }
    }

    /// Finalizes the most recently added call matching `call_id` that is
    /// still open: sets its output and duration, clears its start time and
    /// live buffers. Completed calls are never touched again, so an
    /// identifier with no matching open call is a silent no-op.
    pub fn complete_call(&mut self, call_id: &str, output: CommandOutput, duration_ms: u64)
        ensures
            final(self).calls@.len() == old(self).calls@.len(),
            match last_open_match(old(self).calls@, call_id@) {
                None => final(self).calls@ == old(self).calls@,
                Some(i) => {
                    &&& forall|j: int|
                        0 <= j < old(self).calls@.len() && j != i ==> final(self).calls@[j] == old(
                            self,
                        ).calls@[j]
                    &&& final(self).calls@[i].call_id == old(self).calls@[i].call_id
                    &&& final(self).calls@[i].command == old(self).calls@[i].command
                    &&& final(self).calls@[i].parsed == old(self).calls@[i].parsed
                    &&& final(self).calls@[i].output == Some(output)
                    &&& final(self).calls@[i].duration == Some(duration_ms)
                    &&& final(self).calls@[i].start_time is None
                    &&& final(self).calls@[i].live_output.stdout@ == Seq::<u8>::empty()
                    &&& final(self).calls@[i].live_output.stderr@ == Seq::<u8>::empty()
                    &&& final(self).calls@[i].live_output.last_stream is None
                },
            },
    {
        proof {
            lemma_last_open_match(self.calls@, call_id@);
        }
        let n = self.calls.len();
        let mut i: usize = n;
        while i > 0
            invariant
                i <= n,
                n == self.calls@.len(),
                *self == *old(self),
                forall|m: int|
                    i <= m < n ==> !(self.calls@[m].call_id@ == call_id@
                        && self.calls@[m].output is None),
            decreases i,
        {
            i -= 1;
            if self.calls[i].output.is_none() && str_eq(self.calls[i].call_id.as_str(), call_id) {
                proof {
                    lemma_open_prefix_to_last(self.calls@, call_id@, i as int);
                }
                let mut c = self.calls.remove(i);
                c.output = Some(output);
                c.duration = Some(duration_ms);
                c.start_time = None;
                c.live_output.clear();
                self.calls.insert(i, c);
                assert(final(self).calls@ =~= old(self).calls@.update(
                    i as int,
                    final(self).calls@[i as int],
                ));
                return ;
            }
        }
    }

    /// Routes a streaming chunk to the most recently added open call matching
    /// `call_id`; reports whether one was found (a stale chunk is dropped).
    pub fn append_live_chunk(
        &mut self,
        call_id: &str,
        stream: ExecOutputStream,
        chunk: &[u8],
    ) -> (r: bool)
        ensures
            r == (last_open_match(old(self).calls@, call_id@) is Some),
            final(self).calls@.len() == old(self).calls@.len(),
            match last_open_match(old(self).calls@, call_id@) {
                None => final(self).calls@ == old(self).calls@,
                Some(i) => {
                    &&& forall|j: int|
                        0 <= j < old(self).calls@.len() && j != i ==> final(self).calls@[j] == old(
                            self,
                        ).calls@[j]
                    &&& final(self).calls@[i].call_id == old(self).calls@[i].call_id
                    &&& final(self).calls@[i].command == old(self).calls@[i].command
                    &&& final(self).calls@[i].parsed == old(self).calls@[i].parsed
                    &&& final(self).calls@[i].output == old(self).calls@[i].output
                    &&& final(self).calls@[i].start_time == old(self).calls@[i].start_time
                    &&& final(self).calls@[i].duration == old(self).calls@[i].duration
                    &&& final(self).calls@[i].live_output.last_stream == Some(stream)
                    &&& (stream is Stdout ==> final(self).calls@[i].live_output.stdout@
                        == retained_tail(old(self).calls@[i].live_output.stdout@ + chunk@)
                        && final(self).calls@[i].live_output.stderr@ == old(
                        self,
                    ).calls@[i].live_output.stderr@)
                    &&& (stream is Stderr ==> final(self).calls@[i].live_output.stderr@
                        == retained_tail(old(self).calls@[i].live_output.stderr@ + chunk@)
                        && final(self).calls@[i].live_output.stdout@ == old(
                        self,
                    ).calls@[i].live_output.stdout@)
                },
            },
    {
        proof {
            lemma_last_open_match(self.calls@, call_id@);
        }
        let n = self.calls.len();
        let mut i: usize = n;
        while i > 0
            invariant
                i <= n,
                n == self.calls@.len(),
                *self == *old(self),
                forall|m: int|
                    i <= m < n ==> !(self.calls@[m].call_id@ == call_id@
                        && self.calls@[m].output is None),
            decreases i,
        {
            i -= 1;
            if self.calls[i].output.is_none() && str_eq(self.calls[i].call_id.as_str(), call_id) {
                proof {
                    lemma_open_prefix_to_last(self.calls@, call_id@, i as int);
                }
                let mut c = self.calls.remove(i);
                c.live_output.append(stream, chunk);
                self.calls.insert(i, c);
                assert(final(self).calls@ =~= old(self).calls@.update(
                    i as int,
                    final(self).calls@[i as int],
                ));
                return true;
            }
        }
        false
    }

    /// Finalizes every still-open call with a synthesized failure (exit code
    /// 1, empty outputs), using the elapsed time as its duration; used when
    /// the owning session is torn down before natural completion.
    pub fn mark_failed(&mut self, now_ms: u64)
        ensures
            final(self).calls@.len() == old(self).calls@.len(),
            forall|i: int|
                0 <= i < old(self).calls@.len() ==> if old(self).calls@[i].output is Some {
                    final(self).calls@[i] == old(self).calls@[i]
                } else {
                    failed_call(#[trigger] final(self).calls@[i], old(self).calls@[i], now_ms)
                },
    {
        let n = self.calls.len();
        let mut i: usize = 0;
        while i < n
            invariant
                i <= n,
                n == self.calls@.len(),
                n == old(self).calls@.len(),
                forall|j: int| i <= j < n ==> self.calls@[j] == old(self).calls@[j],
                forall|j: int|
                    0 <= j < i ==> if old(self).calls@[j].output is Some {
                        self.calls@[j] == old(self).calls@[j]
                    } else {
                        failed_call(#[trigger] self.calls@[j], old(self).calls@[j], now_ms)
                    },
            decreases n - i,
        {
            if self.calls[i].output.is_none() {
                let mut c = self.calls.remove(i);
                let elapsed: u64 = match c.start_time {
                    Some(st) => if now_ms >= st {
                        now_ms - st
                    } else {
                        0
                    },
                    None => 0,
                };
                c.start_time = None;
                c.duration = Some(elapsed);
                c.output = Some(
                    CommandOutput {
                        exit_code: 1,
                        stdout: String::new(),
                        stderr: String::new(),
                        formatted_output: String::new(),
                    },
                );
                c.live_output.clear();
                self.calls.insert(i, c);
            }
            i += 1;
        }
    }

    /// Whether the cell may be flushed: every call has output and the cell is
    /// not exploratory (exploratory cells are flushed by the caller's own
    /// batching policy).
    pub fn should_flush(&self) -> (r: bool)
        ensures
            r == (!self.spec_is_exploring_cell() && forall|i: int|
                0 <= i < self.calls@.len() ==> (#[trigger] self.calls@[i]).output is Some),
    {
        if self.is_exploring_cell() {
            return false;
        }
        let mut i: usize = 0;
        while i < self.calls.len()
            invariant
                i <= self.calls@.len(),
                !self.spec_is_exploring_cell(),
                forall|j: int| 0 <= j < i ==> (#[trigger] self.calls@[j]).output is Some,
            decreases self.calls@.len() - i,
        {
            if self.calls[i].output.is_none() {
                return false;
            }
            i += 1;
        }
        true
    }

    /// Whether any call is still open.
    pub fn is_active(&self) -> (r: bool)
        ensures
            r == exists|i: int|
                0 <= i < self.calls@.len() && (#[trigger] self.calls@[i]).output is None,
    {
        let mut i: usize = 0;
        while i < self.calls.len()
            invariant
                i <= self.calls@.len(),
                forall|j: int| 0 <= j < i ==> (#[trigger] self.calls@[j]).output is Some,
            decreases self.calls@.len() - i,
        {
            if self.calls[i].output.is_none() {
                return true;
            }
            i += 1;
        }
        false
    }

    /// Start time of the first open call, for elapsed-time display.
    pub fn active_start_time(&self) -> (r: Option<u64>)
        ensures
            r == match first_open(self.calls@) {
                Some(i) => self.calls@[i].start_time,
                None => None::<u64>,
            },
    {
        proof {
            lemma_first_open(self.calls@);
        }
        let mut i: usize = 0;
        while i < self.calls.len()
            invariant
                i <= self.calls@.len(),
                forall|j: int| 0 <= j < i ==> (#[trigger] self.calls@[j]).output is Some,
            decreases self.calls@.len() - i,
        {
            if self.calls[i].output.is_none() {
                proof {
                    lemma_first_open_at(self.calls@, i as int);
                }
                return self.calls[i].start_time;
            }
            i += 1;
        }
        None
    }
}

/// With an open match at `k` and none after it, `last_open_match` selects `k`.
proof fn lemma_open_prefix_to_last(calls: Seq<ExecCall>, id: Seq<char>, k: int)
    requires
        0 <= k < calls.len(),
        calls[k].call_id@ == id,
        calls[k].output is None,
        forall|m: int| k < m < calls.len() ==> !(calls[m].call_id@ == id && calls[m].output is None),
    ensures
        last_open_match(calls, id) == Some(k),
    decreases calls.len(),
{
    if calls.len() - 1 > k {
        lemma_open_prefix_to_last(calls.drop_last(), id, k);
    }
}

/// What `first_open` selects: the earliest open index.
proof fn lemma_first_open(calls: Seq<ExecCall>)
    ensures
        match first_open(calls) {
            Some(k) => {
                &&& 0 <= k < calls.len()
                &&& calls[k].output is None
                &&& forall|m: int| 0 <= m < k ==> (#[trigger] calls[m]).output is Some
            },
            None => forall|m: int| 0 <= m < calls.len() ==> (#[trigger] calls[m]).output is Some,
        },
    decreases calls.len(),
{
    if calls.len() > 0 && calls.first().output is Some {
        let d = calls.drop_first();
        lemma_first_open(d);
        assert forall|m: int| 0 <= m < d.len() implies #[trigger] d[m] == calls[m + 1] by {}
        match first_open(d) {
            Some(k) => {
                assert(first_open(calls) == Some(k + 1));
                assert forall|m: int| 0 <= m < k + 1 implies (#[trigger] calls[m]).output
                    is Some by {
                    if m > 0 {
                        assert(d[m - 1] == calls[m]);
                    } else {
                        assert(calls[0] == calls.first());
                    }
                }
            },
            None => {
                assert forall|m: int| 0 <= m < calls.len() implies (#[trigger] calls[m]).output
                    is Some by {
                    if m > 0 {
                        assert(d[m - 1] == calls[m]);
                    }
                }
            },
        }
    }
}

/// With every index before `k` closed and `k` open, `first_open` selects `k`.
proof fn lemma_first_open_at(calls: Seq<ExecCall>, k: int)
    requires
        0 <= k < calls.len(),
        calls[k].output is None,
        forall|m: int| 0 <= m < k ==> (#[trigger] calls[m]).output is Some,
    ensures
        first_open(calls) == Some(k),
    decreases calls.len(),
{
    if k > 0 {
        lemma_first_open_at(calls.drop_first(), k - 1);
    }
}

} // verus!
