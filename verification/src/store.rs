//! The shared reading store: a single slot that holds the latest reading.

use vstd::prelude::*;
use crate::reading::HeartRateData;

verus! {

/// Holds the most recent reading, or nothing before the first one arrived.
///
/// The acquisition loop is its only writer. A write replaces the slot as a
/// whole; no history is kept.
pub struct ReadingStore {
    slot: Option<HeartRateData>,
}

impl View for ReadingStore {
    type V = Option<HeartRateData>;

    closed spec fn view(&self) -> Option<HeartRateData> {
        self.slot
    }
}

impl ReadingStore {
    /// An empty store.
    pub fn new() -> (store: ReadingStore)
        ensures
            store@ is None,
    {
        ReadingStore { slot: None }
    }

    /// A copy of the latest reading, if there is one.
    pub fn read(&self) -> (snapshot: Option<HeartRateData>)
        ensures
            snapshot == self@,
    {
        self.slot
    }

    /// Replaces whatever the store held with `reading`.
    pub fn write(&mut self, reading: HeartRateData)
        ensures
            final(self)@ == Some(reading),
    {
        self.slot = Some(reading);
    }
}

} // verus!
