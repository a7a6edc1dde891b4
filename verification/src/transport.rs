//! The outstanding-request set of the transport client.
//!
//! Each call registers a fresh correlation id before its request is sent
//! and stays outstanding until a correlated response, a timeout, a
//! transport error or a shutdown resolves it. Correlation ids are never
//! reused within a session: every id ever handed out is below `next_id`,
//! and every outstanding id is distinct.

use vstd::prelude::*;

verus! {

/// The set of outstanding correlation ids, and the source of fresh ones.
pub struct OutstandingSet {
    /// The next correlation id to hand out; every id ever handed out is
    /// below it.
    pub next_id: u64,
    /// The ids of the calls that are still awaiting resolution.
    pub pending: Vec<u64>,
}

impl OutstandingSet {
    /// Outstanding ids are pairwise distinct and below `next_id`.
    pub open spec fn wf(&self) -> bool {
        &&& forall|i: int, j: int|
            0 <= i < j < self.pending@.len() ==> self.pending@[i] != self.pending@[j]
        &&& forall|i: int| 0 <= i < self.pending@.len() ==> self.pending@[i] < self.next_id
    }

    /// The outstanding correlation ids, as a set.
    pub open spec fn ids(&self) -> Set<u64> {
        self.pending@.to_set()
    }

    /// An empty outstanding set; no id has been handed out yet.
    pub fn new() -> (s: OutstandingSet)
        ensures
            s.wf(),
            s.next_id == 0,
            s.ids() == Set::<u64>::empty(),
            s.pending@.len() == 0,
    {
        let s = OutstandingSet { next_id: 0, pending: Vec::new() };
        proof {
            broadcast use vstd::seq_lib::group_seq_properties;

            assert(s.ids() =~= Set::<u64>::empty());
        }
        s
    }

    /// Registers a new call: hands out a fresh correlation id — one that
    /// is not outstanding and was never handed out before — and adds it to
    /// the outstanding set.
    pub fn register(&mut self) -> (id: u64)
        requires
            old(self).wf(),
            old(self).next_id < u64::MAX,
        ensures
            final(self).wf(),
            id == old(self).next_id,
            final(self).next_id == id + 1,
            !old(self).ids().contains(id),
            final(self).ids() == old(self).ids().insert(id),
            final(self).pending@ == old(self).pending@.push(id),
    {
        let id = self.next_id;
        self.pending.push(id);
        self.next_id = self.next_id + 1;
        proof {
            broadcast use vstd::seq_lib::group_seq_properties;

            if old(self).ids().contains(id) {
                let k = old(self).pending@.lemma_contains_to_index(id);
            }
            old(self).pending@.lemma_push_to_set_commute(id);
            assert(self.ids() == old(self).ids().insert(id));
        }
        id
    }

    /// Resolves a correlation id: if it is outstanding, removes it and
    /// returns true; otherwise — a duplicate, late, or never-issued id —
    /// changes nothing and returns false.
    pub fn resolve(&mut self, id: u64) -> (hit: bool)
        requires
            old(self).wf(),
        ensures
            final(self).wf(),
            hit == old(self).ids().contains(id),
            final(self).ids() == old(self).ids().remove(id),
            final(self).next_id == old(self).next_id,
            !hit ==> *final(self) == *old(self),
    {
        let n = self.pending.len();
        let mut i: usize = 0;
        while i < n
            invariant
                old(self).wf(),
                *self == *old(self),
                n == self.pending@.len(),
                i <= n,
                forall|j: int| 0 <= j < i ==> self.pending@[j] != id,
            decreases n - i,
        {
            if self.pending[i] == id {
                proof {
                    assert(old(self).pending@[i as int] == id);
                }
                self.pending.remove(i);
                proof {
                    broadcast use vstd::seq_lib::group_seq_properties;

                    let s_old = old(self).pending@;
                    let s_new = self.pending@;
                    assert(s_new == s_old.remove(i as int));
                    assert(s_new.len() == s_old.len() - 1);
                    assert forall|j: int| 0 <= j < s_new.len() implies s_new[j] == (if j < i {
                        s_old[j]
                    } else {
                        s_old[j + 1]
                    }) by {
                        assert(s_new[j] == s_old.remove(i as int)[j]);
                    }
                    assert forall|a: int, b: int| 0 <= a < b < s_old.len() implies s_old[a]
                        != s_old[b] by {
                        assert(old(self).pending@[a] != old(self).pending@[b]);
                    }
                    assert forall|x: u64| s_new.contains(x) implies s_old.contains(x) && x != id by {
                        let k = s_new.lemma_contains_to_index(x);
                        if k < i {
                            assert(s_old[k] == x);
                            assert(s_old[k] != s_old[i as int]);
                        } else {
                            assert(s_old[k + 1] == x);
                            assert(s_old[i as int] != s_old[k + 1]);
                        }
                    }
                    assert forall|x: u64| s_old.contains(x) && x != id implies s_new.contains(
                        x,
                    ) by {
                        let k = s_old.lemma_contains_to_index(x);
                        if k < i {
                            assert(s_new[k] == x);
                            assert(s_new.contains(s_new[k]));
                        } else {
                            assert(k != i);
                            assert(s_new[k - 1] == s_old[k]);
                            assert(s_new.contains(s_new[k - 1]));
                        }
                    }
                    assert(s_old.contains(id));
                    assert(self.ids() =~= old(self).ids().remove(id));
                }
                return true;
            }
            i = i + 1;
        }
        proof {
            broadcast use vstd::seq_lib::group_seq_properties;

            if old(self).pending@.contains(id) {
                let k = old(self).pending@.lemma_contains_to_index(id);
            }
            assert(self.ids() =~= old(self).ids().remove(id));
        }
        false
    }

    /// Cancels every outstanding call at shutdown: empties the outstanding
    /// set and returns the canceled ids, in registration order, so the
    /// host can resolve each waiter with a Canceled failure.
    pub fn cancel_all(&mut self) -> (canceled: Vec<u64>)
        requires
            old(self).wf(),
        ensures
            final(self).wf(),
            final(self).next_id == old(self).next_id,
            final(self).ids() == Set::<u64>::empty(),
            final(self).pending@.len() == 0,
            canceled@ == old(self).pending@,
    {
        let mut out: Vec<u64> = Vec::new();
        core::mem::swap(&mut out, &mut self.pending);
        proof {
            broadcast use vstd::seq_lib::group_seq_properties;

            assert(self.ids() =~= Set::<u64>::empty());
        }
        out
    }
}

/// Whether a worker that answers after `response_time` misses a deadline
/// of `timeout` (both in the host's milliseconds).
pub open spec fn spec_times_out(response_time: u64, timeout: u64) -> bool {
    response_time > timeout
}

/// Decides whether a response observed after `response_time` came too
/// late for a call made with the given `timeout`.
pub fn times_out(response_time: u64, timeout: u64) -> (r: bool)
    ensures
        r == spec_times_out(response_time, timeout),
{
    response_time > timeout
}

/// Reducing a call's timeout can only make `Timeout` failures more
/// likely, never less likely, for an identical worker response time: a
/// response that misses the longer deadline also misses the shorter one.
pub proof fn lemma_timeout_monotonic(response_time: u64, shorter: u64, longer: u64)
    requires
        shorter <= longer,
        spec_times_out(response_time, longer),
    ensures
        spec_times_out(response_time, shorter),
{
}

/// A response is applied to at most one outstanding request: resolving a
/// correlation id removes it, so a duplicate or stale response finds it
/// gone and resolves nothing.
pub proof fn lemma_response_applied_once(outstanding: Set<u64>, id: u64)
    ensures
        !outstanding.remove(id).contains(id),
        outstanding.remove(id).remove(id) == outstanding.remove(id),
{
    assert(outstanding.remove(id).remove(id) =~= outstanding.remove(id));
}

} // verus!
