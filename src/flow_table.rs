use vstd::prelude::*;

use crate::ip::StreamID;

verus! {

/// Idle time after which a flow is dropped, and the least time between two sweeps, in
/// microseconds.
pub const STREAM_CLEANUP_DURATION: u64 = 30000000;

/// A flow last active at `last_seen` survives a sweep at `now`.
pub open spec fn keeps(last_seen: u64, now: u64) -> bool {
    last_seen + STREAM_CLEANUP_DURATION > now
}

/// A sweep at `now` runs only when a full period has passed since the last one.
pub open spec fn sweep_due(last_cleanup: u64, now: u64) -> bool {
    last_cleanup + STREAM_CLEANUP_DURATION <= now
}

/// What a flow table needs to know of the flows it holds.
pub trait Flow: Sized {
    /// The key the flow is stored under.
    spec fn key(&self) -> StreamID;

    /// The flow's own invariant.
    spec fn inv(&self) -> bool;

    /// When the flow last saw a packet.
    spec fn last_active(&self) -> u64;

    /// Whether the flow has ended.
    spec fn done(&self) -> bool;

    fn flow_key(&self) -> (r: StreamID)
        ensures
            r == self.key(),
    ;

    fn last_seen(&self) -> (r: u64)
        ensures
            r == self.last_active(),
    ;

    fn is_finished(&self) -> (r: bool)
        ensures
            r == self.done(),
    ;
}

pub open spec fn has_id<S: Flow>(s: Seq<S>, id: StreamID) -> bool {
    exists|i: int| 0 <= i < s.len() && (#[trigger] s[i]).key() == id
}

pub open spec fn unique_ids<S: Flow>(s: Seq<S>) -> bool {
    forall|i: int, j: int| 0 <= i < s.len() && 0 <= j < s.len() && (#[trigger] s[i]).key() == (#[trigger] s[j]).key() ==> i == j
}

/// The flows of one worker, at most one per key, with the time of the last idle sweep.
pub struct FlowTable<S> {
    pub streams: Vec<S>,
    pub last_cleanup: u64,
}

impl<S: Flow> FlowTable<S> {
    pub open spec fn wf(&self) -> bool {
        &&& unique_ids(self.streams@)
        &&& forall|i: int| 0 <= i < self.streams@.len() ==> (#[trigger] self.streams@[i]).inv()
    }

    pub open spec fn contains(&self, id: StreamID) -> bool {
        has_id(self.streams@, id)
    }

    /// The flow stored under `id`.
    pub open spec fn stream(&self, id: StreamID) -> S {
        self.streams@[choose|i: int| 0 <= i < self.streams@.len() && (#[trigger] self.streams@[i]).key() == id]
    }

    pub proof fn lemma_stream_at(&self, i: int)
        requires
            self.wf(),
            0 <= i < self.streams@.len(),
        ensures
            self.contains(self.streams@[i].key()),
            self.stream(self.streams@[i].key()) == self.streams@[i],
    {
        let id = self.streams@[i].key();
        assert(has_id(self.streams@, id));
        let j = choose|j: int| 0 <= j < self.streams@.len() && (#[trigger] self.streams@[j]).key() == id;
        assert(self.streams@[j].key() == self.streams@[i].key());
    }

    pub fn new() -> (r: FlowTable<S>)
        ensures
            r.wf(),
            r.last_cleanup == 0,
            forall|id: StreamID| !r.contains(id),
    {
        FlowTable { streams: Vec::new(), last_cleanup: 0 }
    }

    pub fn len(&self) -> (r: usize)
        ensures
            r == self.streams@.len(),
    {
        self.streams.len()
    }

    pub fn find(&self, id: StreamID) -> (r: Option<usize>)
        requires
            self.wf(),
        ensures
            match r {
                Some(i) => i < self.streams@.len() && self.streams@[i as int].key() == id,
                None => !self.contains(id),
            },
    {
        let mut i: usize = 0;
        while i < self.streams.len()
            invariant
                0 <= i <= self.streams@.len(),
                forall|j: int| 0 <= j < i ==> (#[trigger] self.streams@[j]).key() != id,
            decreases self.streams@.len() - i,
        {
            if self.streams[i].flow_key() == id {
                return Some(i);
            }
            i = i + 1;
        }
        None
    }

    /// Replacing the flow at `i` by one of the same key keeps the table sound and every
    /// other flow as it was.
    pub proof fn lemma_replace(before: Seq<S>, after: Seq<S>, i: int)
        requires
            unique_ids(before),
            forall|k: int| 0 <= k < before.len() ==> (#[trigger] before[k]).inv(),
            0 <= i < before.len(),
            after == before.update(i, after[i]),
            after[i].key() == before[i].key(),
            after[i].inv(),
        ensures
            unique_ids(after),
            forall|k: int| 0 <= k < after.len() ==> (#[trigger] after[k]).inv(),
            forall|x: StreamID| #[trigger] has_id(after, x) <==> has_id(before, x),
    {
        assert forall|a: int, b: int|
            0 <= a < after.len() && 0 <= b < after.len() && (#[trigger] after[a]).key() == (#[trigger] after[b]).key() implies a == b by {
            assert(before[a].key() == after[a].key());
            assert(before[b].key() == after[b].key());
        }
        assert forall|x: StreamID| #[trigger] has_id(after, x) <==> has_id(before, x) by {
            if has_id(after, x) {
                let k = choose|k: int| 0 <= k < after.len() && (#[trigger] after[k]).key() == x;
                assert(before[k].key() == x);
            }
            if has_id(before, x) {
                let k = choose|k: int| 0 <= k < before.len() && (#[trigger] before[k]).key() == x;
                assert(after[k].key() == x);
            }
        }
    }

    /// Replacing the flow at `i` by one of the same key changes only the flow under that key.
    pub proof fn lemma_updated(old_t: &Self, new_t: &Self, i: int)
        requires
            old_t.wf(),
            0 <= i < old_t.streams@.len(),
            new_t.streams@ == old_t.streams@.update(i, new_t.streams@[i]),
            new_t.streams@[i].key() == old_t.streams@[i].key(),
            new_t.streams@[i].inv(),
        ensures
            new_t.wf(),
            forall|x: StreamID| #[trigger] new_t.contains(x) <==> old_t.contains(x),
            forall|x: StreamID| x != old_t.streams@[i].key() && old_t.contains(x) ==> #[trigger] new_t.stream(x) == old_t.stream(x),
            old_t.stream(old_t.streams@[i].key()) == old_t.streams@[i],
            new_t.stream(old_t.streams@[i].key()) == new_t.streams@[i],
    {
        let id = old_t.streams@[i].key();
        Self::lemma_replace(old_t.streams@, new_t.streams@, i);
        old_t.lemma_stream_at(i);
        new_t.lemma_stream_at(i);
        assert forall|x: StreamID| x != id && old_t.contains(x) implies #[trigger] new_t.stream(x) == old_t.stream(x) by {
            let k = choose|k: int| 0 <= k < old_t.streams@.len() && (#[trigger] old_t.streams@[k]).key() == x;
            old_t.lemma_stream_at(k);
            new_t.lemma_stream_at(k);
        }
    }

    /// Adds a flow under a key not yet present; returns where it stands.
    pub fn insert(&mut self, stream: S) -> (r: usize)
        requires
            old(self).wf(),
            !old(self).contains(stream.key()),
            stream.inv(),
        ensures
            final(self).wf(),
            final(self).last_cleanup == old(self).last_cleanup,
            final(self).streams@ == old(self).streams@.push(stream),
            r == old(self).streams@.len(),
            forall|x: StreamID| #[trigger] final(self).contains(x) <==> old(self).contains(x) || x == stream.key(),
            forall|x: StreamID| old(self).contains(x) ==> #[trigger] final(self).stream(x) == old(self).stream(x),
            final(self).stream(stream.key()) == stream,
    {
        let ghost id = stream.key();
        self.streams.push(stream);
        proof {
            let n = self.streams@.len() - 1;
            assert forall|a: int, b: int|
                0 <= a < self.streams@.len() && 0 <= b < self.streams@.len()
                    && (#[trigger] self.streams@[a]).key() == (#[trigger] self.streams@[b]).key() implies a == b by {
                if a != n && b != n {
                    assert(old(self).streams@[a] == self.streams@[a]);
                } else if a == n && b != n {
                    assert(old(self).streams@[b].key() == id);
                    assert(has_id(old(self).streams@, id));
                } else if a != n && b == n {
                    assert(old(self).streams@[a].key() == id);
                    assert(has_id(old(self).streams@, id));
                }
            }
            self.lemma_stream_at(n);
            assert forall|x: StreamID| #[trigger] self.contains(x) <==> old(self).contains(x) || x == id by {
                if self.contains(x) && x != id {
                    let k = choose|k: int| 0 <= k < self.streams@.len() && (#[trigger] self.streams@[k]).key() == x;
                    assert(old(self).streams@[k].key() == x);
                }
                if old(self).contains(x) {
                    let k = choose|k: int| 0 <= k < old(self).streams@.len() && (#[trigger] old(self).streams@[k]).key() == x;
                    assert(self.streams@[k].key() == x);
                }
            }
            assert forall|x: StreamID| old(self).contains(x) implies #[trigger] self.stream(x) == old(self).stream(x) by {
                let k = choose|k: int| 0 <= k < old(self).streams@.len() && (#[trigger] old(self).streams@[k]).key() == x;
                old(self).lemma_stream_at(k);
                assert(self.streams@[k] == old(self).streams@[k]);
                self.lemma_stream_at(k);
            }
        }
        self.streams.len() - 1
    }

    /// What a sweep at `now` leaves: when one is due, exactly the flows active within the
    /// last period, unchanged; otherwise everything.
    pub open spec fn swept(&self, other: &Self, now: u64) -> bool {
        &&& other.wf()
        &&& if sweep_due(self.last_cleanup, now) {
            &&& other.last_cleanup == now
            &&& forall|x: StreamID| #[trigger] other.contains(x) <==> self.contains(x) && keeps(self.stream(x).last_active(), now)
            &&& forall|x: StreamID| other.contains(x) ==> #[trigger] other.stream(x) == self.stream(x)
        } else {
            &&& other.last_cleanup == self.last_cleanup
            &&& other.streams@ == self.streams@
        }
    }

    /// Drops the flows idle for a full period, when a period has passed since the last
    /// sweep. Returns the dropped flows; their owner is to `close` them.
    pub fn cleanup_stream(&mut self, now: u64) -> (r: Vec<S>)
        requires
            old(self).wf(),
        ensures
            old(self).swept(&*final(self), now),
            !sweep_due(old(self).last_cleanup, now) ==> r@.len() == 0,
            forall|k: int| 0 <= k < r@.len() ==> (#[trigger] r@[k]).inv() && !keeps(r@[k].last_active(), now),
    {
        if now < STREAM_CLEANUP_DURATION || self.last_cleanup > now - STREAM_CLEANUP_DURATION {
            return Vec::new();
        }
        let limit = now - STREAM_CLEANUP_DURATION;
        let mut remaining: Vec<S> = Vec::new();
        std::mem::swap(&mut remaining, &mut self.streams);
        let ghost all = remaining@;
        let mut kept: Vec<S> = Vec::new();
        let mut evicted: Vec<S> = Vec::new();
        while remaining.len() > 0
            invariant
                unique_ids(all),
                forall|k: int| 0 <= k < all.len() ==> (#[trigger] all[k]).inv(),
                limit == now - STREAM_CLEANUP_DURATION,
                remaining@.len() <= all.len(),
                remaining@ == all.subrange(0, remaining@.len() as int),
                unique_ids(kept@),
                forall|k: int| 0 <= k < kept@.len() ==> (#[trigger] kept@[k]).inv() && keeps(kept@[k].last_active(), now),
                forall|k: int| #![trigger kept@[k]] 0 <= k < kept@.len() ==> exists|j: int| remaining@.len() <= j < all.len() && (#[trigger] all[j]) == kept@[k],
                forall|j: int| remaining@.len() <= j < all.len() && keeps(all[j].last_active(), now) ==> exists|k: int| 0 <= k < kept@.len() && (#[trigger] kept@[k]) == (#[trigger] all[j]),
                forall|k: int| 0 <= k < evicted@.len() ==> (#[trigger] evicted@[k]).inv() && !keeps(evicted@[k].last_active(), now),
            decreases remaining@.len(),
        {
            let ghost m = remaining@.len() - 1;
            let stream = remaining.pop().unwrap();
            assert(stream == all[m]);
            if stream.last_seen() > limit {
                let ghost before = kept@;
                kept.push(stream);
                proof {
                    assert forall|a: int, b: int|
                        0 <= a < kept@.len() && 0 <= b < kept@.len() && (#[trigger] kept@[a]).key() == (#[trigger] kept@[b]).key() implies a == b by {
                        let n = before.len() as int;
                        if a < n && b == n {
                            let j = choose|j: int| m + 1 <= j < all.len() && (#[trigger] all[j]) == before[a];
                            assert(all[j].key() == all[m].key());
                        } else if a == n && b < n {
                            let j = choose|j: int| m + 1 <= j < all.len() && (#[trigger] all[j]) == before[b];
                            assert(all[j].key() == all[m].key());
                        }
                    }
                    assert forall|k: int| #![trigger kept@[k]] 0 <= k < kept@.len() implies exists|j: int| m <= j < all.len() && (#[trigger] all[j]) == kept@[k] by {
                        if k < before.len() {
                            let j = choose|j: int| m + 1 <= j < all.len() && (#[trigger] all[j]) == before[k];
                            assert(all[j] == kept@[k]);
                        } else {
                            assert(all[m] == kept@[k]);
                        }
                    }
                    assert forall|j: int| m <= j < all.len() && keeps(all[j].last_active(), now) implies exists|k: int| 0 <= k < kept@.len() && (#[trigger] kept@[k]) == (#[trigger] all[j]) by {
                        if j == m {
                            assert(kept@[before.len() as int] == all[j]);
                        } else {
                            let k = choose|k: int| 0 <= k < before.len() && (#[trigger] before[k]) == (#[trigger] all[j]);
                            assert(kept@[k] == all[j]);
                        }
                    }
                }
            } else {
                evicted.push(stream);
            }
            assert(remaining@ =~= all.subrange(0, remaining@.len() as int));
        }
        self.streams = kept;
        self.last_cleanup = now;
        proof {
            let old_t = *old(self);
            assert(old_t.streams@ == all);
            assert forall|x: StreamID| #[trigger] self.contains(x) <==> old_t.contains(x) && keeps(old_t.stream(x).last_active(), now) by {
                if self.contains(x) {
                    let k = choose|k: int| 0 <= k < self.streams@.len() && (#[trigger] self.streams@[k]).key() == x;
                    let j = choose|j: int| 0 <= j < all.len() && (#[trigger] all[j]) == self.streams@[k];
                    old_t.lemma_stream_at(j);
                }
                if old_t.contains(x) && keeps(old_t.stream(x).last_active(), now) {
                    let j = choose|j: int| 0 <= j < all.len() && (#[trigger] all[j]).key() == x;
                    old_t.lemma_stream_at(j);
                    let k = choose|k: int| 0 <= k < self.streams@.len() && (#[trigger] self.streams@[k]) == (#[trigger] all[j]);
                    assert(self.streams@[k].key() == x);
                }
            }
            assert forall|x: StreamID| self.contains(x) implies #[trigger] self.stream(x) == old_t.stream(x) by {
                let k = choose|k: int| 0 <= k < self.streams@.len() && (#[trigger] self.streams@[k]).key() == x;
                let j = choose|j: int| 0 <= j < all.len() && (#[trigger] all[j]) == self.streams@[k];
                old_t.lemma_stream_at(j);
                self.lemma_stream_at(k);
            }
        }
        evicted
    }

    /// Ends the handling of a packet of flow `id`: a finished flow leaves the table at
    /// once; otherwise the idle sweep gets its chance. Returns the flows taken out; their
    /// owner is to `close` them.
    pub fn end_packet(&mut self, id: StreamID, now: u64) -> (r: Vec<S>)
        requires
            old(self).wf(),
        ensures
            final(self).wf(),
            old(self).contains(id) && old(self).stream(id).done() ==> {
                &&& r@ == seq![old(self).stream(id)]
                &&& final(self).last_cleanup == old(self).last_cleanup
                &&& forall|x: StreamID| #[trigger] final(self).contains(x) <==> old(self).contains(x) && x != id
                &&& forall|x: StreamID| final(self).contains(x) ==> #[trigger] final(self).stream(x) == old(self).stream(x)
            },
            !(old(self).contains(id) && old(self).stream(id).done()) ==> {
                &&& old(self).swept(&*final(self), now)
                &&& forall|k: int| 0 <= k < r@.len() ==> (#[trigger] r@[k]).inv() && !keeps(r@[k].last_active(), now)
            },
    {
        if let Some(i) = self.find(id) {
            if self.streams[i].is_finished() {
                proof {
                    self.lemma_stream_at(i as int);
                }
                let stream = self.streams.remove(i);
                proof {
                    let old_t = *old(self);
                    let at = |k: int| if k < i { k } else { k + 1 };
                    assert forall|a: int, b: int|
                        0 <= a < self.streams@.len() && 0 <= b < self.streams@.len()
                            && (#[trigger] self.streams@[a]).key() == (#[trigger] self.streams@[b]).key() implies a == b by {
                        assert(self.streams@[a] == old_t.streams@[at(a)]);
                        assert(self.streams@[b] == old_t.streams@[at(b)]);
                    }
                    assert forall|k: int| 0 <= k < self.streams@.len() implies (#[trigger] self.streams@[k]).inv() by {
                        assert(self.streams@[k] == old_t.streams@[at(k)]);
                    }
                    assert forall|x: StreamID| #[trigger] self.contains(x) <==> old_t.contains(x) && x != id by {
                        if self.contains(x) {
                            let k = choose|k: int| 0 <= k < self.streams@.len() && (#[trigger] self.streams@[k]).key() == x;
                            assert(self.streams@[k] == old_t.streams@[at(k)]);
                            assert(old_t.streams@[at(k)].key() == x);
                        }
                        if old_t.contains(x) && x != id {
                            let j = choose|j: int| 0 <= j < old_t.streams@.len() && (#[trigger] old_t.streams@[j]).key() == x;
                            if j < i {
                                assert(self.streams@[j] == old_t.streams@[j]);
                            } else {
                                assert(j != i);
                                assert(self.streams@[j - 1] == old_t.streams@[j]);
                            }
                        }
                    }
                    assert forall|x: StreamID| self.contains(x) implies #[trigger] self.stream(x) == old_t.stream(x) by {
                        let k = choose|k: int| 0 <= k < self.streams@.len() && (#[trigger] self.streams@[k]).key() == x;
                        assert(self.streams@[k] == old_t.streams@[at(k)]);
                        old_t.lemma_stream_at(at(k));
                        self.lemma_stream_at(k);
                    }
                }
                let mut removed: Vec<S> = Vec::new();
                removed.push(stream);
                return removed;
            }
        }
        self.cleanup_stream(now)
    }
}

/// Idle eviction: a flow last active at `t` outlives any sweep before `t` plus the period,
/// and a sweep that runs later than that drops it.
pub proof fn lemma_idle_eviction<S: Flow>(before: FlowTable<S>, after: FlowTable<S>, id: StreamID, now: u64)
    requires
        before.wf(),
        before.swept(&after, now),
        before.contains(id),
    ensures
        now < before.stream(id).last_active() + STREAM_CLEANUP_DURATION ==> after.contains(id),
        sweep_due(before.last_cleanup, now) && now > before.stream(id).last_active() + STREAM_CLEANUP_DURATION
            ==> !after.contains(id),
{
    if !sweep_due(before.last_cleanup, now) {
        assert(after.streams@ == before.streams@);
        assert(has_id(after.streams@, id));
    }
}

} // verus!
