//! The broadcast hub: fan-out of readings to the attached subscribers.
//!
//! Every subscriber owns a queue bounded by the hub's capacity. Publishing
//! appends the reading to every queue that has room and never waits. A
//! subscriber whose queue is full at that moment has fallen behind and is
//! disconnected: it leaves the hub together with what it had not yet taken.

use std::collections::VecDeque;
use vstd::prelude::*;
use crate::reading::HeartRateData;

verus! {

/// Mathematical state of a hub: the queue of every attached subscriber.
pub struct HubState {
    /// Most readings a subscriber may leave waiting.
    pub capacity: nat,
    /// The identifier that the next subscriber gets; all earlier ones are
    /// smaller.
    pub next_id: nat,
    /// The readings waiting for each attached subscriber, oldest first.
    pub queues: Map<u64, Seq<HeartRateData>>,
}

impl HubState {
    /// A hub without subscribers.
    pub open spec fn fresh(capacity: nat) -> HubState {
        HubState { capacity, next_id: 0, queues: Map::empty() }
    }

    /// `id` is attached.
    pub open spec fn attached(self, id: u64) -> bool {
        self.queues.dom().contains(id)
    }

    /// The readings waiting for `id`, oldest first.
    pub open spec fn pending(self, id: u64) -> Seq<HeartRateData>
        recommends
            self.attached(id),
    {
        self.queues[id]
    }

    /// Another identifier can still be handed out.
    pub open spec fn has_room(self) -> bool {
        self.next_id < u64::MAX
    }

    /// The hub after one more subscriber attached: it got `next_id` and an
    /// empty queue.
    pub open spec fn subscribed(self) -> HubState {
        HubState {
            capacity: self.capacity,
            next_id: self.next_id + 1,
            queues: self.queues.insert(self.next_id as u64, Seq::empty()),
        }
    }

    /// The hub after `id` detached.
    pub open spec fn unsubscribed(self, id: u64) -> HubState {
        HubState {
            capacity: self.capacity,
            next_id: self.next_id,
            queues: self.queues.remove(id),
        }
    }

    /// `id` is attached and its queue has room for one more reading.
    pub open spec fn keeps_up(self, id: u64) -> bool {
        self.attached(id) && self.pending(id).len() < self.capacity
    }

    /// The hub after `reading` was published: every subscriber that keeps up
    /// has it at the end of its queue, and the others are gone.
    pub open spec fn published(self, reading: HeartRateData) -> HubState {
        HubState {
            capacity: self.capacity,
            next_id: self.next_id,
            queues: Map::new(|id: u64| self.keeps_up(id), |id: u64| self.queues[id].push(reading)),
        }
    }

    /// The reading that `id` takes next, if it is attached and one is waiting.
    pub open spec fn front(self, id: u64) -> Option<HeartRateData> {
        if self.attached(id) && self.pending(id).len() > 0 {
            Some(self.pending(id)[0])
        } else {
            None
        }
    }

    /// The hub after `id` took its next reading.
    pub open spec fn received(self, id: u64) -> HubState {
        if self.front(id) is Some {
            HubState {
                capacity: self.capacity,
                next_id: self.next_id,
                queues: self.queues.insert(id, self.pending(id).drop_first()),
            }
        } else {
            self
        }
    }

    /// What holds of every hub: identifiers in use were handed out, and no
    /// queue exceeds the capacity.
    pub open spec fn valid(self) -> bool {
        &&& self.next_id <= u64::MAX
        &&& self.queues.dom().finite()
        &&& forall|id: u64| #[trigger]
            self.attached(id) ==> id < self.next_id && self.pending(id).len() <= self.capacity
    }
}

struct Subscription {
    id: u64,
    pending: VecDeque<HeartRateData>,
}

spec fn ids_distinct(subs: Seq<Subscription>) -> bool {
    forall|i: int, j: int| 0 <= i < j < subs.len() ==> subs[i].id != subs[j].id
}

spec fn holds(subs: Seq<Subscription>, id: u64) -> bool {
    exists|i: int| 0 <= i < subs.len() && #[trigger] subs[i].id == id
}

spec fn position(subs: Seq<Subscription>, id: u64) -> int {
    choose|i: int| 0 <= i < subs.len() && #[trigger] subs[i].id == id
}

spec fn queues_of(subs: Seq<Subscription>) -> Map<u64, Seq<HeartRateData>> {
    Map::new(|id: u64| holds(subs, id), |id: u64| subs[position(subs, id)].pending@)
}

/// With distinct identifiers, the queue found under the identifier of the
/// `i`-th subscription is that subscription's own.
proof fn lemma_lookup(subs: Seq<Subscription>, i: int)
    requires
        ids_distinct(subs),
        0 <= i < subs.len(),
    ensures
        holds(subs, subs[i].id),
        position(subs, subs[i].id) == i,
        queues_of(subs).dom().contains(subs[i].id),
        queues_of(subs)[subs[i].id] == subs[i].pending@,
{
    let id = subs[i].id;
    assert(subs[i].id == id);
    let p = position(subs, id);
    assert(0 <= p < subs.len() && subs[p].id == id);
    if p < i {
        assert(subs[p].id != subs[i].id);
    } else if i < p {
        assert(subs[i].id != subs[p].id);
    }
}

/// The identifiers in use are as many as the subscriptions.
proof fn lemma_count(subs: Seq<Subscription>)
    requires
        ids_distinct(subs),
    ensures
        queues_of(subs).dom().finite(),
        queues_of(subs).dom().len() == subs.len(),
    decreases subs.len(),
{
    if subs.len() == 0 {
        assert(queues_of(subs).dom() =~= Set::<u64>::empty());
    } else {
        let front = subs.drop_last();
        let last = subs.last();
        assert(ids_distinct(front));
        lemma_count(front);
        assert forall|id: u64| queues_of(subs).dom().contains(id) <==> queues_of(
            front,
        ).dom().insert(last.id).contains(id) by {
            if holds(subs, id) {
                let p = position(subs, id);
                if p < subs.len() - 1 {
                    assert(front[p].id == id);
                }
            }
            if holds(front, id) {
                let p = position(front, id);
                assert(subs[p].id == id);
            }
            if id == last.id {
                assert(subs[subs.len() - 1].id == id);
            }
        }
        assert(queues_of(subs).dom() =~= queues_of(front).dom().insert(last.id));
        assert(!queues_of(front).dom().contains(last.id)) by {
            if holds(front, last.id) {
                let p = position(front, last.id);
                assert(subs[p].id != subs[subs.len() - 1].id);
            }
        }
    }
}

/// A map is the one that `subs` stands for when it holds the queue of every
/// subscription under its identifier and nothing else.
proof fn lemma_queues_are(subs: Seq<Subscription>, m: Map<u64, Seq<HeartRateData>>)
    requires
        ids_distinct(subs),
        forall|i: int|
            0 <= i < subs.len() ==> m.dom().contains((#[trigger] subs[i]).id) && m[subs[i].id]
                == subs[i].pending@,
        forall|id: u64| #[trigger] m.dom().contains(id) ==> holds(subs, id),
    ensures
        queues_of(subs) == m,
{
    assert forall|id: u64| queues_of(subs).dom().contains(id) <==> m.dom().contains(id) by {
        if holds(subs, id) {
            let p = position(subs, id);
            assert(m.dom().contains(subs[p].id));
        }
    }
    assert forall|id: u64| queues_of(subs).dom().contains(id) implies #[trigger] queues_of(subs)[id]
        == m[id] by {
        let p = position(subs, id);
        assert(m[subs[p].id] == subs[p].pending@);
    }
    assert(queues_of(subs) =~= m);
}

/// The hub that fans readings out to its subscribers.
pub struct BroadcastHub {
    capacity: usize,
    next_id: u64,
    subscriptions: Vec<Subscription>,
}

impl View for BroadcastHub {
    type V = HubState;

    closed spec fn view(&self) -> HubState {
        HubState {
            capacity: self.capacity as nat,
            next_id: self.next_id as nat,
            queues: queues_of(self.subscriptions@),
        }
    }
}

impl BroadcastHub {
    /// The representation is sound: no identifier is used twice, all were
    /// handed out, and no queue exceeds the capacity.
    pub closed spec fn wf(&self) -> bool {
        &&& ids_distinct(self.subscriptions@)
        &&& forall|i: int|
            0 <= i < self.subscriptions@.len() ==> {
                &&& (#[trigger] self.subscriptions@[i]).id < self.next_id
                &&& self.subscriptions@[i].pending@.len() <= self.capacity
            }
    }

    /// A well-formed hub has a valid state.
    pub proof fn lemma_wf_valid(&self)
        requires
            self.wf(),
        ensures
            self@.valid(),
    {
        let subs = self.subscriptions@;
        lemma_count(subs);
        assert forall|id: u64| #[trigger] self@.attached(id) implies id < self@.next_id
            && self@.pending(id).len() <= self@.capacity by {
            let p = position(subs, id);
            assert(subs[p].id == id);
            lemma_lookup(subs, p);
        }
    }

    /// A hub without subscribers whose queues will hold up to `capacity`
    /// readings each.
    pub fn new(capacity: usize) -> (hub: BroadcastHub)
        ensures
            hub.wf(),
            hub@ == HubState::fresh(capacity as nat),
    {
        let hub = BroadcastHub { capacity, next_id: 0, subscriptions: Vec::new() };
        assert(hub@.queues =~= Map::<u64, Seq<HeartRateData>>::empty());
        hub
    }

    /// Most readings a subscriber may leave waiting.
    pub fn capacity(&self) -> (c: usize)
        ensures
            c == self@.capacity,
    {
        self.capacity
    }

    /// Number of attached subscribers.
    pub fn subscriber_count(&self) -> (n: usize)
        requires
            self.wf(),
        ensures
            n == self@.queues.dom().len(),
    {
        proof {
            lemma_count(self.subscriptions@);
        }
        self.subscriptions.len()
    }

    fn find(&self, id: u64) -> (r: Option<usize>)
        ensures
            match r {
                Some(i) => i < self.subscriptions@.len() && self.subscriptions@[i as int].id == id,
                None => !holds(self.subscriptions@, id),
            },
    {
        let mut i: usize = 0;
        while i < self.subscriptions.len()
            invariant
                i <= self.subscriptions@.len(),
                forall|j: int| 0 <= j < i ==> self.subscriptions@[j].id != id,
            decreases self.subscriptions@.len() - i,
        {
            if self.subscriptions[i].id == id {
                return Some(i);
            }
            i = i + 1;
        }
        None
    }

    /// Whether `id` is attached.
    pub fn is_attached(&self, id: u64) -> (r: bool)
        ensures
            r == self@.attached(id),
    {
        self.find(id).is_some()
    }

    /// Number of readings waiting for `id`; `None` when `id` is not attached.
    pub fn backlog(&self, id: u64) -> (r: Option<usize>)
        requires
            self.wf(),
        ensures
            r is Some <==> self@.attached(id),
            r is Some ==> r->Some_0 == self@.pending(id).len(),
    {
        match self.find(id) {
            Some(i) => {
                proof {
                    lemma_lookup(self.subscriptions@, i as int);
                }
                Some(self.subscriptions[i].pending.len())
            },
            None => None,
        }
    }

    /// Attaches a subscriber with an empty queue and returns its identifier.
    ///
    /// Identifiers count up from zero and are never reused; `None` once they
    /// are used up, and the hub is then unchanged.
    pub fn subscribe(&mut self) -> (id: Option<u64>)
        requires
            old(self).wf(),
        ensures
            final(self).wf(),
            old(self)@.has_room() ==> id == Some(old(self)@.next_id as u64) && final(self)@ == old(
                self,
            )@.subscribed(),
            !old(self)@.has_room() ==> id is None && final(self)@ == old(self)@,
    {
        if self.next_id == u64::MAX {
            return None;
        }
        let id: u64 = self.next_id;
        let ghost before = self.subscriptions@;
        self.next_id = id + 1;
        self.subscriptions.push(Subscription { id, pending: VecDeque::new() });
        proof {
            let after = self.subscriptions@;
            let last = before.len() as int;
            assert(forall|i: int| 0 <= i < before.len() ==> after[i] == before[i]);
            assert(after[last].id == id);
            assert(ids_distinct(after));
            assert forall|k: u64| #[trigger]
                queues_of(after).dom().contains(k) <==> queues_of(before).insert(
                    id,
                    Seq::empty(),
                ).dom().contains(k) by {
                if holds(after, k) {
                    let p = position(after, k);
                    if p < last {
                        assert(before[p].id == k);
                    }
                }
                if holds(before, k) {
                    let p = position(before, k);
                    assert(after[p].id == k);
                }
            }
            assert forall|k: u64| #[trigger] queues_of(after).dom().contains(k) implies queues_of(
                after,
            )[k] == queues_of(before).insert(id, Seq::empty())[k] by {
                let p = position(after, k);
                lemma_lookup(after, p);
                if p < last {
                    lemma_lookup(before, p);
                }
            }
            assert(queues_of(after) =~= queues_of(before).insert(id, Seq::empty()));
        }
        Some(id)
    }

    /// Detaches `id`, dropping what it had not yet taken. Returns whether it
    /// was attached; the other subscribers are untouched.
    pub fn unsubscribe(&mut self, id: u64) -> (was_attached: bool)
        requires
            old(self).wf(),
        ensures
            final(self).wf(),
            was_attached == old(self)@.attached(id),
            final(self)@ == old(self)@.unsubscribed(id),
    {
        let ghost before = self.subscriptions@;
        match self.find(id) {
            None => {
                assert(queues_of(before).remove(id) =~= queues_of(before));
                false
            },
            Some(i) => {
                let _ = self.subscriptions.swap_remove(i);
                proof {
                    let after = self.subscriptions@;
                    let last = before.len() - 1;
                    let m = queues_of(before).remove(id);
                    assert forall|j: int| 0 <= j < after.len() implies m.dom().contains(
                        (#[trigger] after[j]).id,
                    ) && m[after[j].id] == after[j].pending@ by {
                        let k = if j == i { last } else { j };
                        assert(after[j] == before[k]);
                        lemma_lookup(before, k);
                        lemma_lookup(before, i as int);
                    }
                    assert forall|a: int, b: int| 0 <= a < b < after.len() implies after[a].id
                        != after[b].id by {
                        let ka = if a == i { last } else { a };
                        let kb = if b == i { last } else { b };
                        assert(after[a] == before[ka]);
                        assert(after[b] == before[kb]);
                        if ka < kb {
                            assert(before[ka].id != before[kb].id);
                        } else {
                            assert(before[kb].id != before[ka].id);
                        }
                    }
                    assert forall|k: u64| #[trigger] m.dom().contains(k) implies holds(after, k) by {
                        let p = position(before, k);
                        assert(before[p].id == k);
                        if p == last {
                            assert(after[i as int].id == k);
                        } else {
                            assert(after[p].id == k);
                        }
                    }
                    lemma_queues_are(after, m);
                }
                true
            },
        }
    }

    /// Hands `id` the oldest reading that waits for it and removes it from
    /// the queue. `None` when nothing waits or `id` is not attached; the hub
    /// is then unchanged.
    pub fn receive(&mut self, id: u64) -> (r: Option<HeartRateData>)
        requires
            old(self).wf(),
        ensures
            final(self).wf(),
            r == old(self)@.front(id),
            final(self)@ == old(self)@.received(id),
    {
        let ghost before = self.subscriptions@;
        match self.find(id) {
            None => None,
            Some(i) => {
                proof {
                    lemma_lookup(before, i as int);
                }
                let r = self.subscriptions[i].pending.pop_front();
                proof {
                    let after = self.subscriptions@;
                    let m = if r is Some {
                        queues_of(before).insert(id, before[i as int].pending@.drop_first())
                    } else {
                        queues_of(before)
                    };
                    assert(ids_distinct(after)) by {
                        assert forall|a: int, b: int| 0 <= a < b < after.len() implies after[a].id
                            != after[b].id by {
                            assert(after[a].id == before[a].id);
                            assert(after[b].id == before[b].id);
                        }
                    }
                    assert forall|j: int| 0 <= j < after.len() implies m.dom().contains(
                        (#[trigger] after[j]).id,
                    ) && m[after[j].id] == after[j].pending@ by {
                        lemma_lookup(before, j);
                        assert(after[j].id == before[j].id);
                        if j != i {
                            assert(after[j] == before[j]);
                        }
                    }
                    assert forall|k: u64| #[trigger] m.dom().contains(k) implies holds(after, k) by {
                        if k == id {
                            assert(after[i as int].id == k);
                        } else {
                            let p = position(before, k);
                            assert(before[p].id == k);
                            assert(after[p].id == k);
                        }
                    }
                    lemma_queues_are(after, m);
                }
                r
            },
        }
    }

    /// Publishes `reading` to every attached subscriber without waiting for
    /// any of them, and returns how many got it.
    ///
    /// A subscriber whose queue is full has fallen behind and is
    /// disconnected; with no subscriber attached the reading is dropped.
    pub fn publish(&mut self, reading: HeartRateData) -> (delivered: usize)
        requires
            old(self).wf(),
        ensures
            final(self).wf(),
            final(self)@ == old(self)@.published(reading),
            delivered == final(self)@.queues.dom().len(),
    {
        let ghost before = self.subscriptions@;
        let ghost m0 = queues_of(before);
        let ghost cap = self.capacity;
        let ghost next = self.next_id;
        proof {
            assert forall|j: int| 0 <= j < before.len() implies m0.dom().contains(
                (#[trigger] before[j]).id,
            ) && before[j].pending@ == m0[before[j].id] by {
                lemma_lookup(before, j);
            }
            assert forall|k: u64| #[trigger] m0.dom().contains(k) implies holds(before, k) by {}
        }
        let mut i: usize = 0;
        while i < self.subscriptions.len()
            invariant
                self.capacity == cap,
                self.next_id == next,
                i <= self.subscriptions@.len(),
                ids_distinct(self.subscriptions@),
                forall|j: int|
                    0 <= j < self.subscriptions@.len() ==> {
                        &&& (#[trigger] self.subscriptions@[j]).id < next
                        &&& m0.dom().contains(self.subscriptions@[j].id)
                        &&& m0[self.subscriptions@[j].id].len() <= cap
                    },
                forall|j: int|
                    0 <= j < i ==> {
                        &&& m0[(#[trigger] self.subscriptions@[j]).id].len() < cap
                        &&& self.subscriptions@[j].pending@ == m0[self.subscriptions@[j].id].push(
                            reading,
                        )
                    },
                forall|j: int|
                    i <= j < self.subscriptions@.len() ==> (#[trigger] self.subscriptions@[j]).pending@
                        == m0[self.subscriptions@[j].id],
                forall|k: u64|
                    m0.dom().contains(k) && m0[k].len() < cap ==> #[trigger] holds(
                        self.subscriptions@,
                        k,
                    ),
            decreases self.subscriptions@.len() - i,
        {
            let ghost cur = self.subscriptions@;
            if self.subscriptions[i].pending.len() < self.capacity {
                self.subscriptions[i].pending.push_back(reading);
                proof {
                    let after = self.subscriptions@;
                    assert forall|j: int| 0 <= j < after.len() implies (#[trigger] after[j]).id
                        == cur[j].id by {
                        if j != i {
                            assert(after[j] == cur[j]);
                        }
                    }
                    assert forall|j: int| 0 <= j < after.len() && j != i implies (
                    #[trigger] after[j]).pending@ == cur[j].pending@ by {
                        assert(after[j] == cur[j]);
                    }
                    assert forall|a: int, b: int| 0 <= a < b < after.len() implies after[a].id
                        != after[b].id by {
                        assert(after[a].id == cur[a].id);
                        assert(after[b].id == cur[b].id);
                    }
                    assert forall|k: u64| m0.dom().contains(k) && m0[k].len() < cap implies #[trigger] holds(
                        after,
                        k,
                    ) by {
                        assert(holds(cur, k));
                        let p = position(cur, k);
                        assert(cur[p].id == k);
                        assert(after[p].id == k);
                    }
                }
                i = i + 1;
            } else {
                let _ = self.subscriptions.swap_remove(i);
                proof {
                    let after = self.subscriptions@;
                    let last = cur.len() - 1;
                    assert forall|j: int| 0 <= j < after.len() implies #[trigger] after[j] == cur[if j
                        == i {
                        last
                    } else {
                        j
                    }] by {}
                    assert forall|a: int, b: int| 0 <= a < b < after.len() implies after[a].id
                        != after[b].id by {
                        let ka = if a == i { last } else { a };
                        let kb = if b == i { last } else { b };
                        assert(after[a] == cur[ka]);
                        assert(after[b] == cur[kb]);
                        if ka < kb {
                            assert(cur[ka].id != cur[kb].id);
                        } else {
                            assert(cur[kb].id != cur[ka].id);
                        }
                    }
                    assert forall|k: u64| m0.dom().contains(k) && m0[k].len() < cap implies #[trigger] holds(
                        after,
                        k,
                    ) by {
                        assert(holds(cur, k));
                        let p = position(cur, k);
                        assert(cur[p].id == k);
                        assert(cur[i as int].pending@ == m0[cur[i as int].id]);
                        assert(p != i);
                        if p == last {
                            assert(after[i as int].id == k);
                        } else {
                            assert(after[p].id == k);
                        }
                    }
                }
            }
        }
        proof {
            let after = self.subscriptions@;
            let target = old(self)@.published(reading).queues;
            assert forall|j: int| 0 <= j < after.len() implies target.dom().contains(
                (#[trigger] after[j]).id,
            ) && target[after[j].id] == after[j].pending@ by {}
            assert forall|k: u64| #[trigger] target.dom().contains(k) implies holds(after, k) by {}
            lemma_queues_are(after, target);
            lemma_count(after);
        }
        self.subscriptions.len()
    }
}

} // verus!
