//! The cross-boundary callback bridge.
//!
//! A long-lived native client runs its own worker threads, while the host
//! runtime consumes callback invocations on a single cooperative scheduler.
//! Two structures carry values between the two sides:
//!
//! * [`DispatchQueue`] models the fire-and-forget mode: a notifying thread
//!   enqueues a payload and returns at once; the host-side consumer takes
//!   payloads out in order, one at a time.  Dispatching never delivers
//!   anything by itself, so the notifier is never held up by host-side work.
//! * [`CorrelationBridge`] models the blocking mode: each call is issued
//!   under a fresh correlation id, the host side takes the call, computes a
//!   result and completes it under the same id, and the original caller picks
//!   up exactly the result completed for its own id — never another
//!   caller's, however many calls are outstanding at once.

use vstd::prelude::*;

verus! {

/// A first-in-first-out queue of payloads on their way from native notifying
/// threads to the host runtime's single consumer.
pub struct DispatchQueue<T> {
    items: Vec<T>,
}

impl<T> View for DispatchQueue<T> {
    type V = Seq<T>;

    closed spec fn view(&self) -> Seq<T> {
        self.items@
    }
}

impl<T> DispatchQueue<T> {
    /// An empty queue with no pending deliveries.
    pub fn new() -> (q: Self)
        ensures
            q@ == Seq::<T>::empty(),
    {
        DispatchQueue { items: Vec::new() }
    }

    /// Fire-and-forget dispatch: appends the payload and does nothing else.
    /// In particular no delivery happens here — every payload queued before
    /// the call is still queued after it, so the dispatching thread is done
    /// as soon as the payload is enqueued.
    pub fn dispatch(&mut self, value: T)
        ensures
            final(self)@ == old(self)@.push(value),
    {
        self.items.push(value);
    }

    /// How many payloads are queued and not yet delivered.
    pub fn len(&self) -> (n: usize)
        ensures
            n == self@.len(),
    {
        self.items.len()
    }

    /// The host-side consumer takes the oldest payload, if any.  Payloads
    /// come out in exactly the order they were dispatched.
    pub fn take_next(&mut self) -> (r: Option<T>)
        ensures
            old(self)@.len() == 0 ==> r is None && final(self)@ == old(self)@,
            old(self)@.len() > 0 ==> r == Some(old(self)@[0])
                && final(self)@ == old(self)@.drop_first(),
    {
        if self.items.len() == 0 {
            None
        } else {
            let first = self.items.remove(0);
            proof {
                assert(self.items@ =~= old(self)@.drop_first());
            }
            Some(first)
        }
    }
}

/// Whether some entry of a correlation list carries the given id.
pub open spec fn contains_id<T>(entries: Seq<(u64, T)>, id: u64) -> bool {
    exists|k: int| 0 <= k < entries.len() && (#[trigger] entries[k]).0 == id
}

/// The payload correlated with the given id.  Meaningful only when the list
/// contains the id; with pairwise distinct ids it is the payload of the one
/// entry that carries it.
pub open spec fn payload_for<T>(entries: Seq<(u64, T)>, id: u64) -> T {
    entries[choose|k: int| 0 <= k < entries.len() && (#[trigger] entries[k]).0 == id].1
}

/// Pairwise distinct correlation ids.
pub open spec fn distinct_ids<T>(entries: Seq<(u64, T)>) -> bool {
    forall|k1: int, k2: int|
        0 <= k1 < k2 < entries.len()
            ==> (#[trigger] entries[k1]).0 != (#[trigger] entries[k2]).0
}

/// All ids in the list lie below the given bound.
pub open spec fn ids_below<T>(entries: Seq<(u64, T)>, bound: u64) -> bool {
    forall|k: int| 0 <= k < entries.len() ==> (#[trigger] entries[k]).0 < bound
}

/// The single-consumer handoff shared by every blocking round trip.
///
/// A native caller issues a call and obtains a fresh correlation id; the host
/// side takes calls in order, computes a result for each and completes it
/// under the call's id; the caller then picks up the one result correlated
/// with its own id.  Each id is handed out once, so two concurrent callers
/// can never receive each other's results.
pub struct CorrelationBridge<T> {
    next_id: u64,
    pending: Vec<(u64, T)>,
    completed: Vec<(u64, T)>,
}

impl<T> CorrelationBridge<T> {
    /// Calls issued and not yet taken by the host side, oldest first.
    pub closed spec fn pending(&self) -> Seq<(u64, T)> {
        self.pending@
    }

    /// Results completed by the host side and not yet picked up.
    pub closed spec fn completed(&self) -> Seq<(u64, T)> {
        self.completed@
    }

    /// The id the next issued call will receive.
    pub closed spec fn next_id(&self) -> u64 {
        self.next_id
    }

    /// Correlation is sound: every live id was handed out, no id is live
    /// twice, and no id awaits the host and carries a result at once.
    pub open spec fn wf(&self) -> bool {
        &&& ids_below(self.pending(), self.next_id())
        &&& ids_below(self.completed(), self.next_id())
        &&& distinct_ids(self.pending())
        &&& distinct_ids(self.completed())
        &&& forall|id: u64|
            contains_id(self.pending(), id) ==> !contains_id(self.completed(), id)
    }

    /// A bridge with no outstanding calls.
    pub fn new() -> (b: Self)
        ensures
            b.wf(),
            b.pending() == Seq::<(u64, T)>::empty(),
            b.completed() == Seq::<(u64, T)>::empty(),
            b.next_id() == 0,
    {
        CorrelationBridge { next_id: 0, pending: Vec::new(), completed: Vec::new() }
    }

    /// Issues a blocking call: the payload joins the pending calls under a
    /// fresh id, which no earlier or concurrent call shares.
    pub fn begin_call(&mut self, payload: T) -> (id: u64)
        requires
            old(self).wf(),
            old(self).next_id() < u64::MAX,
        ensures
            final(self).wf(),
            id == old(self).next_id(),
            !contains_id(old(self).pending(), id),
            !contains_id(old(self).completed(), id),
            final(self).pending() == old(self).pending().push((id, payload)),
            final(self).completed() == old(self).completed(),
            final(self).next_id() == id + 1,
    {
        let id = self.next_id;
        self.next_id = self.next_id + 1;
        self.pending.push((id, payload));
        id
    }

    /// The host side takes the oldest pending call.  The id that comes out
    /// is live nowhere else in the bridge, so the host may complete it.
    pub fn host_take(&mut self) -> (r: Option<(u64, T)>)
        requires
            old(self).wf(),
        ensures
            final(self).wf(),
            final(self).next_id() == old(self).next_id(),
            final(self).completed() == old(self).completed(),
            old(self).pending().len() == 0 ==> r is None
                && final(self).pending() == old(self).pending(),
            old(self).pending().len() > 0 ==> r == Some(old(self).pending()[0])
                && final(self).pending() == old(self).pending().drop_first()
                && old(self).pending()[0].0 < old(self).next_id()
                && !contains_id(final(self).pending(), old(self).pending()[0].0)
                && !contains_id(final(self).completed(), old(self).pending()[0].0),
    {
        if self.pending.len() == 0 {
            None
        } else {
            let first = self.pending.remove(0);
            proof {
                assert(self.pending@ =~= old(self).pending().drop_first());
                assert(contains_id(old(self).pending(), first.0)) by {
                    assert(old(self).pending()[0].0 == first.0);
                }
                assert forall|k: int| 0 <= k < self.pending@.len()
                    implies (#[trigger] self.pending@[k]).0 != first.0 by {
                    assert(self.pending@[k] == old(self).pending()[k + 1]);
                }
            }
            Some(first)
        }
    }

    /// The host side hands back the result of one taken call, under the id
    /// the call was taken with.  The result joins the completed results; no
    /// pending call is touched.
    pub fn host_complete(&mut self, id: u64, result: T)
        requires
            old(self).wf(),
            id < old(self).next_id(),
            !contains_id(old(self).pending(), id),
            !contains_id(old(self).completed(), id),
        ensures
            final(self).wf(),
            final(self).next_id() == old(self).next_id(),
            final(self).pending() == old(self).pending(),
            final(self).completed() == old(self).completed().push((id, result)),
    {
        self.completed.push((id, result));
    }

    /// The original caller picks up its result.  It receives a result
    /// exactly when one was completed for its id, and then exactly the
    /// payload completed under that id; that one entry leaves the bridge, so
    /// the result is delivered once and to one caller only.
    pub fn finish_call(&mut self, id: u64) -> (r: Option<T>)
        requires
            old(self).wf(),
        ensures
            final(self).wf(),
            final(self).next_id() == old(self).next_id(),
            final(self).pending() == old(self).pending(),
            r is Some <==> contains_id(old(self).completed(), id),
            forall|k: int|
                0 <= k < old(self).completed().len()
                    && (#[trigger] old(self).completed()[k]).0 == id
                    ==> r == Some(old(self).completed()[k].1),
            r matches Some(t) ==> t == payload_for(old(self).completed(), id)
                && exists|k: int|
                    0 <= k < old(self).completed().len()
                        && old(self).completed()[k] == (id, t)
                        && final(self).completed() == old(self).completed().remove(k),
            r is None ==> final(self).completed() == old(self).completed(),
            !contains_id(final(self).completed(), id),
            forall|k: int|
                0 <= k < final(self).completed().len()
                    ==> old(self).completed().contains(#[trigger] final(self).completed()[k]),
            forall|k: int|
                0 <= k < old(self).completed().len()
                    && (#[trigger] old(self).completed()[k]).0 != id
                    ==> final(self).completed().contains(old(self).completed()[k]),
    {
        let mut k: usize = 0;
        while k < self.completed.len()
            invariant
                self == old(self),
                old(self).wf(),
                k <= self.completed@.len(),
                forall|j: int| 0 <= j < k ==> (#[trigger] self.completed@[j]).0 != id,
            decreases self.completed@.len() - k,
        {
            if self.completed[k].0 == id {
                let entry = self.completed.remove(k);
                proof {
                    let ghost kk = k as int;
                    assert(old(self).completed()[kk].0 == id);
                    assert(contains_id(old(self).completed(), id));
                    lemma_exclusive_correlation(
                        old(self).completed(),
                        kk,
                        choose|j: int|
                            0 <= j < old(self).completed().len()
                                && (#[trigger] old(self).completed()[j]).0 == id,
                    );
                    assert forall|other: u64| contains_id(self.completed@, other)
                        implies contains_id(old(self).completed(), other) by {
                        let j = choose|j: int|
                            0 <= j < self.completed@.len()
                                && (#[trigger] self.completed@[j]).0 == other;
                        if j < kk {
                            assert(old(self).completed()[j].0 == other);
                        } else {
                            assert(old(self).completed()[j + 1].0 == other);
                        }
                    }
                    assert forall|j: int| 0 <= j < self.completed@.len()
                        implies (#[trigger] self.completed@[j]).0 != id by {
                        if j < kk {
                            assert(self.completed@[j] == old(self).completed()[j]);
                        } else {
                            assert(self.completed@[j] == old(self).completed()[j + 1]);
                        }
                    }
                    assert forall|j: int|
                        0 <= j < old(self).completed().len()
                            && (#[trigger] old(self).completed()[j]).0 == id
                        implies entry.1 == old(self).completed()[j].1 by {
                        lemma_exclusive_correlation(old(self).completed(), kk, j);
                    }
                    assert forall|j: int| 0 <= j < self.completed@.len()
                        implies old(self).completed().contains(#[trigger] self.completed@[j]) by {
                        if j < kk {
                            assert(self.completed@[j] == old(self).completed()[j]);
                        } else {
                            assert(self.completed@[j] == old(self).completed()[j + 1]);
                        }
                    }
                    assert forall|j: int|
                        0 <= j < old(self).completed().len()
                            && (#[trigger] old(self).completed()[j]).0 != id
                        implies self.completed@.contains(old(self).completed()[j]) by {
                        if j < kk {
                            assert(self.completed@[j] == old(self).completed()[j]);
                        } else {
                            assert(j != kk);
                            assert(self.completed@[j - 1] == old(self).completed()[j]);
                        }
                    }
                    assert(distinct_ids(self.completed@)) by {
                        assert forall|k1: int, k2: int|
                            0 <= k1 < k2 < self.completed@.len()
                            implies (#[trigger] self.completed@[k1]).0
                                != (#[trigger] self.completed@[k2]).0 by {
                            let o1: int = if k1 < kk { k1 } else { k1 + 1 };
                            let o2: int = if k2 < kk { k2 } else { k2 + 1 };
                            assert(self.completed@[k1] == old(self).completed()[o1]);
                            assert(self.completed@[k2] == old(self).completed()[o2]);
                        }
                    }
                }
                return Some(entry.1);
            }
            k = k + 1;
        }
        proof {
            assert(!contains_id(old(self).completed(), id));
        }
        None
    }
}

/// A blocking round trip delivers exactly one result to exactly one caller:
/// when correlation ids are pairwise distinct, at most one entry carries any
/// given id, so the payload picked up for an id is the one completed under
/// it, never another caller's.
pub proof fn lemma_exclusive_correlation<T>(entries: Seq<(u64, T)>, k1: int, k2: int)
    requires
        distinct_ids(entries),
        0 <= k1 < entries.len(),
        0 <= k2 < entries.len(),
        entries[k1].0 == entries[k2].0,
    ensures
        k1 == k2,
        entries[k1].1 == entries[k2].1,
{
}

/// Concurrent blocking round trips do not cross-talk: if results were
/// completed for two distinct correlation ids, each caller's pickup is the
/// payload completed under its own id.
pub proof fn lemma_no_cross_talk<T>(
    entries: Seq<(u64, T)>,
    id1: u64,
    t1: T,
    id2: u64,
    t2: T,
)
    requires
        distinct_ids(entries),
        entries.contains((id1, t1)),
        entries.contains((id2, t2)),
        id1 != id2,
    ensures
        payload_for(entries, id1) == t1,
        payload_for(entries, id2) == t2,
{
    let j1 = choose|j: int| 0 <= j < entries.len() && entries[j] == (id1, t1);
    assert(contains_id(entries, id1));
    let c1 = choose|k: int| 0 <= k < entries.len() && (#[trigger] entries[k]).0 == id1;
    lemma_exclusive_correlation(entries, j1, c1);
    let j2 = choose|j: int| 0 <= j < entries.len() && entries[j] == (id2, t2);
    assert(contains_id(entries, id2));
    let c2 = choose|k: int| 0 <= k < entries.len() && (#[trigger] entries[k]).0 == id2;
    lemma_exclusive_correlation(entries, j2, c2);
}

} // verus!
