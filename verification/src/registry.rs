//! Interactive-exec registry.
//!
//! A session owns a mapping from call identifier to an
//! [`InteractiveExecHandle`], with at most one handle per identifier. The
//! handle carries an optional, takeable termination capability: it is taken
//! exactly once, and every later take is a no-op, so any number of
//! termination attempts after the first are safe. The host supplies the
//! capability type `K` (whatever actually kills the process) and invokes a
//! taken capability itself; removal from the registry and termination are
//! independent operations, so "kill" and "forget" can be driven separately.

use vstd::prelude::*;

use crate::text::str_eq;

verus! {

/// Handle to one attached interactive process: a takeable termination
/// capability and an opaque session identifier for display.
#[derive(Debug)]
pub struct InteractiveExecHandle<K> {
    pub killer: Option<K>,
    pub session_id: String,
}

impl<K> InteractiveExecHandle<K> {
    /// A fresh handle holding the given termination capability.
    pub fn new(killer: Option<K>, session_id: String) -> (r: Self)
        ensures
            r.killer == killer,
            r.session_id == session_id,
    {
        InteractiveExecHandle { killer, session_id }
    }

    /// Takes the termination capability for the caller to invoke. The first
    /// call yields it; every later call yields nothing, which makes
    /// termination idempotent however many holders race to request it.
    pub fn kill(&mut self) -> (r: Option<K>)
        ensures
            r == old(self).killer,
            final(self).killer is None,
            final(self).session_id == old(self).session_id,
    {
        self.killer.take()
    }
}

/// First index of `id` among the registered pairs.
pub open spec fn find_key<K>(
    pairs: Seq<(String, InteractiveExecHandle<K>)>,
    id: Seq<char>,
) -> Option<int>
    decreases pairs.len(),
{
    if pairs.len() == 0 {
        None
    } else if pairs.first().0@ == id {
        Some(0)
    } else {
        match find_key(pairs.drop_first(), id) {
            Some(i) => Some(i + 1),
            None => None,
        }
    }
}

/// What `find_key` selects: the earliest pair whose key is `id`.
pub proof fn lemma_find_key<K>(pairs: Seq<(String, InteractiveExecHandle<K>)>, id: Seq<char>)
    ensures
        match find_key(pairs, id) {
            Some(k) => {
                &&& 0 <= k < pairs.len()
                &&& pairs[k].0@ == id
                &&& forall|m: int| 0 <= m < k ==> (#[trigger] pairs[m]).0@ != id
            },
            None => forall|m: int| 0 <= m < pairs.len() ==> (#[trigger] pairs[m]).0@ != id,
        },
    decreases pairs.len(),
{
    if pairs.len() > 0 && pairs.first().0@ != id {
        let d = pairs.drop_first();
        lemma_find_key(d, id);
        assert forall|m: int| 0 <= m < d.len() implies #[trigger] d[m] == pairs[m + 1] by {}
        match find_key(d, id) {
            Some(k) => {
                assert forall|m: int| 0 <= m < k + 1 implies (#[trigger] pairs[m]).0@ != id by {
                    if m > 0 {
                        assert(d[m - 1] == pairs[m]);
                    } else {
                        assert(pairs[0] == pairs.first());
                    }
                }
            },
            None => {
                assert forall|m: int| 0 <= m < pairs.len() implies (#[trigger] pairs[m]).0@
                    != id by {
                    if m > 0 {
                        assert(d[m - 1] == pairs[m]);
                    }
                }
            },
        }
    }
}

/// No two pairs share a key.
pub open spec fn unique_keys<K>(pairs: Seq<(String, InteractiveExecHandle<K>)>) -> bool {
    forall|i: int, j: int|
        #![trigger pairs[i], pairs[j]]
        0 <= i < j < pairs.len() ==> pairs[i].0@ != pairs[j].0@
}

/// Instantiates `unique_keys` at one pair of indices.
proof fn lemma_unique_keys_at<K>(pairs: Seq<(String, InteractiveExecHandle<K>)>, a: int, b: int)
    requires
        unique_keys(pairs),
        0 <= a < pairs.len(),
        0 <= b < pairs.len(),
        a != b,
    ensures
        pairs[a].0@ != pairs[b].0@,
{
    if a < b {
        assert(pairs[a].0@ != pairs[b].0@);
    } else {
        assert(pairs[b].0@ != pairs[a].0@);
    }
}

/// Session-scoped registry of interactive execs, keyed by call identifier.
#[derive(Debug)]
pub struct SessionState<K> {
    pub interactive_execs: Vec<(String, InteractiveExecHandle<K>)>,
}

impl<K> SessionState<K> {
    /// Keys are unique: at most one handle per call identifier.
    pub open spec fn wf(&self) -> bool {
        unique_keys(self.interactive_execs@)
    }

    /// An empty registry.
    pub fn new() -> (r: Self)
        ensures
            r.interactive_execs@.len() == 0,
            r.wf(),
    {
        SessionState { interactive_execs: Vec::new() }
    }

    /// Registers `handle` under `call_id`, silently overwriting any handle
    /// the identifier already has.
    pub fn insert_interactive_exec(&mut self, call_id: String, handle: InteractiveExecHandle<K>)
        requires
            old(self).wf(),
        ensures
            final(self).wf(),
            match find_key(old(self).interactive_execs@, call_id@) {
                Some(i) => final(self).interactive_execs@ == old(self).interactive_execs@.update(
                    i,
                    (call_id, handle),
                ),
                None => final(self).interactive_execs@ == old(self).interactive_execs@.push(
                    (call_id, handle),
                ),
            },
    {
        proof {
            lemma_find_key(self.interactive_execs@, call_id@);
        }
        let ghost opairs = self.interactive_execs@;
        let n = self.interactive_execs.len();
        let mut i: usize = 0;
        while i < n
            invariant
                i <= n,
                n == self.interactive_execs@.len(),
                *self == *old(self),
                self.interactive_execs@ == opairs,
                unique_keys(opairs),
                forall|m: int|
                    0 <= m < i ==> (#[trigger] self.interactive_execs@[m]).0@ != call_id@,
            decreases n - i,
        {
            if str_eq(self.interactive_execs[i].0.as_str(), call_id.as_str()) {
                proof {
                    lemma_find_key_at(self.interactive_execs@, call_id@, i as int);
                }
                self.interactive_execs.remove(i);
                self.interactive_execs.insert(i, (call_id, handle));
                proof {
                    assert(self.interactive_execs@ =~= opairs.update(i as int, (call_id, handle)));
                    assert(unique_keys(opairs));
                    assert forall|a: int, b: int|
                        0 <= a < b < self.interactive_execs@.len() implies (
                    #[trigger] self.interactive_execs@[a]).0@ != (
                    #[trigger] self.interactive_execs@[b]).0@ by {
                        lemma_unique_keys_at(opairs, a, b);
                        assert(self.interactive_execs@[a].0@ == opairs[a].0@);
                        assert(self.interactive_execs@[b].0@ == opairs[b].0@);
                    }
                }
                return ;
            }
            i += 1;
        }
        self.interactive_execs.push((call_id, handle));
    }

    /// Removes and returns the handle registered under `call_id`, if any.
    pub fn remove_interactive_exec(&mut self, call_id: &str) -> (r: Option<
        InteractiveExecHandle<K>,
    >)
        requires
            old(self).wf(),
        ensures
            final(self).wf(),
            match find_key(old(self).interactive_execs@, call_id@) {
                Some(i) => {
                    &&& r == Some(old(self).interactive_execs@[i].1)
                    &&& final(self).interactive_execs@ == old(self).interactive_execs@.remove(i)
                },
                None => {
                    &&& r is None
                    &&& final(self).interactive_execs@ == old(self).interactive_execs@
                },
            },
    {
        proof {
            lemma_find_key(self.interactive_execs@, call_id@);
        }
        let ghost opairs = self.interactive_execs@;
        let n = self.interactive_execs.len();
        let mut i: usize = 0;
        while i < n
            invariant
                i <= n,
                n == self.interactive_execs@.len(),
                *self == *old(self),
                self.interactive_execs@ == opairs,
                unique_keys(opairs),
                forall|m: int|
                    0 <= m < i ==> (#[trigger] self.interactive_execs@[m]).0@ != call_id@,
            decreases n - i,
        {
            if str_eq(self.interactive_execs[i].0.as_str(), call_id) {
                proof {
                    lemma_find_key_at(self.interactive_execs@, call_id@, i as int);
                }
                let (_, handle) = self.interactive_execs.remove(i);
                proof {
                    assert(unique_keys(opairs));
                    assert forall|a: int, b: int|
                        0 <= a < b < self.interactive_execs@.len() implies (
                    #[trigger] self.interactive_execs@[a]).0@ != (
                    #[trigger] self.interactive_execs@[b]).0@ by {
                        let oa: int = if a < i { a } else { a + 1 };
                        let ob: int = if b < i { b } else { b + 1 };
                        assert(self.interactive_execs@[a] == opairs[oa]);
                        assert(self.interactive_execs@[b] == opairs[ob]);
                        lemma_unique_keys_at(opairs, oa, ob);
                    }
                }
                return Some(handle);
            }
            i += 1;
        }
        None
    }

    /// Looks up the handle registered under `call_id` without removing it.
    pub fn interactive_exec_handle(&self, call_id: &str) -> (r: Option<
        &InteractiveExecHandle<K>,
    >)
        ensures
            match find_key(self.interactive_execs@, call_id@) {
                Some(i) => r == Some(&self.interactive_execs@[i].1),
                None => r is None,
            },
    {
        proof {
            lemma_find_key(self.interactive_execs@, call_id@);
        }
        let n = self.interactive_execs.len();
        let mut i: usize = 0;
        while i < n
            invariant
                i <= n,
                n == self.interactive_execs@.len(),
                forall|m: int|
                    0 <= m < i ==> (#[trigger] self.interactive_execs@[m]).0@ != call_id@,
            decreases n - i,
        {
            if str_eq(self.interactive_execs[i].0.as_str(), call_id) {
                proof {
                    lemma_find_key_at(self.interactive_execs@, call_id@, i as int);
                }
                return Some(&self.interactive_execs[i].1);
            }
            i += 1;
        }
        None
    }

    /// Empties the registry, handing back every still-registered handle (in
    /// registration order) for mass termination at session teardown.
    pub fn drain_interactive_execs(&mut self) -> (r: Vec<InteractiveExecHandle<K>>)
        ensures
            final(self).interactive_execs@.len() == 0,
            final(self).wf(),
            r@.len() == old(self).interactive_execs@.len(),
            forall|i: int|
                0 <= i < r@.len() ==> r@[i] == (#[trigger] old(self).interactive_execs@[i]).1,
    {
        let mut out: Vec<InteractiveExecHandle<K>> = Vec::new();
        let ghost orig = self.interactive_execs@;
        let n0 = self.interactive_execs.len();
        let mut i: usize = 0;
        while self.interactive_execs.len() > 0
            invariant
                i == out@.len(),
                orig.len() == n0,
                i + self.interactive_execs@.len() == orig.len(),
                forall|m: int|
                    0 <= m < self.interactive_execs@.len() ==> #[trigger] self.interactive_execs@[m]
                        == orig[i + m],
                forall|m: int| 0 <= m < i ==> drained_in_order(out@, orig, m),
            decreases self.interactive_execs@.len(),
        {
            let ghost prev_out = out@;
            let ghost prev_pairs = self.interactive_execs@;
            let (_, handle) = self.interactive_execs.remove(0);
            out.push(handle);
            proof {
                assert(handle == prev_pairs[0].1);
                assert(prev_pairs[0] == orig[i as int]);
                assert forall|m: int| 0 <= m < i + 1 implies drained_in_order(out@, orig, m) by {
                    if m < i {
                        assert(drained_in_order(prev_out, orig, m));
                        assert(out@[m] == prev_out[m]);
                    } else {
                        assert(out@[m] == handle);
                    }
                }
                assert forall|m: int| 0 <= m < self.interactive_execs@.len() implies
                    #[trigger] self.interactive_execs@[m] == orig[i + 1 + m] by {
                    assert(self.interactive_execs@[m] == prev_pairs[m + 1]);
                }
            }
            i += 1;
        }
        proof {
            assert forall|m: int| 0 <= m < out@.len() implies out@[m] == (#[trigger] old(
                self,
            ).interactive_execs@[m]).1 by {
                assert(drained_in_order(out@, orig, m));
            }
        }
        out
    }
}

/// The `m`th drained handle is the `m`th registered one.
spec fn drained_in_order<K>(
    out: Seq<InteractiveExecHandle<K>>,
    orig: Seq<(String, InteractiveExecHandle<K>)>,
    m: int,
) -> bool {
    out[m] == orig[m].1
}

/// With no key match before `k` and a match at `k`, `find_key` selects `k`.
proof fn lemma_find_key_at<K>(
    pairs: Seq<(String, InteractiveExecHandle<K>)>,
    id: Seq<char>,
    k: int,
)
    requires
        0 <= k < pairs.len(),
        pairs[k].0@ == id,
        forall|m: int| 0 <= m < k ==> (#[trigger] pairs[m]).0@ != id,
    ensures
        find_key(pairs, id) == Some(k),
    decreases pairs.len(),
{
    if k > 0 {
        let d = pairs.drop_first();
        assert forall|m: int| 0 <= m < d.len() implies #[trigger] d[m] == pairs[m + 1] by {}
        lemma_find_key_at(d, id, k - 1);
        assert(pairs.first() == pairs[0]);
    }
}

} // verus!
