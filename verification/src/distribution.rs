//! The state shared between the acquisition loop and the consumers: the
//! latest reading and the broadcast hub, updated together.

use vstd::prelude::*;
use crate::hub::BroadcastHub;
use crate::hub::HubState;
use crate::reading::HeartRateData;
use crate::store::ReadingStore;

verus! {

/// Mathematical state of the distribution side.
pub struct DistributionState {
    /// What the reading store holds.
    pub latest: Option<HeartRateData>,
    /// The queues of the attached subscribers.
    pub hub: HubState,
}

impl DistributionState {
    /// Nothing published yet, nobody attached.
    pub open spec fn fresh(capacity: nat) -> DistributionState {
        DistributionState { latest: None, hub: HubState::fresh(capacity) }
    }

    /// The state after `reading` was published: it is the latest reading, and
    /// every subscriber that keeps up has it queued.
    pub open spec fn published(self, reading: HeartRateData) -> DistributionState {
        DistributionState { latest: Some(reading), hub: self.hub.published(reading) }
    }

    /// The state after one more subscriber attached.
    pub open spec fn attached_one(self) -> DistributionState {
        DistributionState { latest: self.latest, hub: self.hub.subscribed() }
    }

    /// The state after `id` detached.
    pub open spec fn detached(self, id: u64) -> DistributionState {
        DistributionState { latest: self.latest, hub: self.hub.unsubscribed(id) }
    }

    /// The state after `id` took its next reading.
    pub open spec fn delivered(self, id: u64) -> DistributionState {
        DistributionState { latest: self.latest, hub: self.hub.received(id) }
    }

    /// What an attaching subscriber is handed.
    pub open spec fn attachment(self) -> Option<Attachment> {
        if self.hub.has_room() {
            Some(Attachment { id: self.hub.next_id as u64, snapshot: self.latest })
        } else {
            None
        }
    }
}

/// What a subscriber gets when it attaches.
#[derive(Debug, Clone, Copy, PartialEq, Eq, Structural)]
pub struct Attachment {
    /// The identifier under which the subscriber takes its readings.
    pub id: u64,
    /// The latest reading at the moment of attaching, to be sent at once;
    /// `None` before the first reading.
    pub snapshot: Option<HeartRateData>,
}

/// The latest reading and the broadcast hub.
pub struct AppState {
    heart_rate_data: ReadingStore,
    hub: BroadcastHub,
}

impl View for AppState {
    type V = DistributionState;

    closed spec fn view(&self) -> DistributionState {
        DistributionState { latest: self.heart_rate_data@, hub: self.hub@ }
    }
}

impl AppState {
    /// The representation is sound.
    pub closed spec fn wf(&self) -> bool {
        self.hub.wf()
    }

    /// A well-formed state has a valid hub.
    pub proof fn lemma_wf_valid(&self)
        requires
            self.wf(),
        ensures
            self@.hub.valid(),
    {
        self.hub.lemma_wf_valid();
    }

    /// An empty store and a hub without subscribers whose queues will hold up
    /// to `capacity` readings each.
    pub fn new(capacity: usize) -> (state: AppState)
        ensures
            state.wf(),
            state@ == DistributionState::fresh(capacity as nat),
    {
        AppState { heart_rate_data: ReadingStore::new(), hub: BroadcastHub::new(capacity) }
    }

    /// A copy of the latest reading, if there is one.
    pub fn current(&self) -> (snapshot: Option<HeartRateData>)
        ensures
            snapshot == self@.latest,
    {
        self.heart_rate_data.read()
    }

    /// Makes `reading` the latest one, then broadcasts it, in that order, and
    /// returns how many subscribers got it.
    pub fn publish(&mut self, reading: HeartRateData) -> (delivered: usize)
        requires
            old(self).wf(),
        ensures
            final(self).wf(),
            final(self)@ == old(self)@.published(reading),
            delivered == final(self)@.hub.queues.dom().len(),
    {
        self.heart_rate_data.write(reading);
        self.hub.publish(reading)
    }

    /// Attaches a subscriber: it gets an identifier, an empty queue and the
    /// latest reading as its snapshot. Whatever is published from now on is
    /// queued for it; the snapshot is not.
    ///
    /// `None` once the identifiers are used up; the state is then unchanged.
    pub fn attach(&mut self) -> (r: Option<Attachment>)
        requires
            old(self).wf(),
        ensures
            final(self).wf(),
            r == old(self)@.attachment(),
            r is Some ==> final(self)@ == old(self)@.attached_one(),
            r is None ==> final(self)@ == old(self)@,
    {
        match self.hub.subscribe() {
            Some(id) => Some(Attachment { id, snapshot: self.heart_rate_data.read() }),
            None => None,
        }
    }

    /// Detaches `id` and releases its queue. Returns whether it was attached.
    pub fn detach(&mut self, id: u64) -> (was_attached: bool)
        requires
            old(self).wf(),
        ensures
            final(self).wf(),
            was_attached == old(self)@.hub.attached(id),
            final(self)@ == old(self)@.detached(id),
    {
        self.hub.unsubscribe(id)
    }

    /// Whether `id` is attached. A subscriber that fell behind is not.
    pub fn is_attached(&self, id: u64) -> (r: bool)
        ensures
            r == self@.hub.attached(id),
    {
        self.hub.is_attached(id)
    }

    /// Hands `id` the oldest reading that waits for it. `None` when nothing
    /// waits or `id` is not attached; the state is then unchanged.
    pub fn next_for(&mut self, id: u64) -> (r: Option<HeartRateData>)
        requires
            old(self).wf(),
        ensures
            final(self).wf(),
            r == old(self)@.hub.front(id),
            final(self)@ == old(self)@.delivered(id),
    {
        self.hub.receive(id)
    }
}

} // verus!
