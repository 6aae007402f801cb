//! The one-shot query for the current reading.

use vstd::prelude::*;
use crate::distribution::AppState;
use crate::reading::HeartRateData;

verus! {

/// Status of an answer that carries a reading.
pub const STATUS_OK: u16 = 200;

/// Status of the answer when there is no reading yet.
pub const STATUS_NOT_FOUND: u16 = 404;

/// The answer to a query for the current reading.
#[derive(Debug, Clone, Copy, PartialEq, Eq, Structural)]
pub enum QueryReply {
    /// The latest reading.
    Found(HeartRateData),
    /// No reading has arrived yet.
    NotFound,
}

/// The answer that goes with what the store holds.
pub open spec fn reply_for(latest: Option<HeartRateData>) -> QueryReply {
    match latest {
        Some(reading) => QueryReply::Found(reading),
        None => QueryReply::NotFound,
    }
}

impl QueryReply {
    /// The status that goes with the answer.
    pub open spec fn status(self) -> u16 {
        match self {
            QueryReply::Found(_) => STATUS_OK,
            QueryReply::NotFound => STATUS_NOT_FOUND,
        }
    }

    /// The status that goes with the answer: 200 with a reading, 404 without.
    pub fn status_code(&self) -> (code: u16)
        ensures
            code == self.status(),
    {
        match self {
            QueryReply::Found(_) => STATUS_OK,
            QueryReply::NotFound => STATUS_NOT_FOUND,
        }
    }
}

/// Answers a query from a snapshot of the store: the reading if there is
/// one, else `NotFound`.
pub fn answer(latest: Option<HeartRateData>) -> (reply: QueryReply)
    ensures
        reply == reply_for(latest),
{
    match latest {
        Some(reading) => QueryReply::Found(reading),
        None => QueryReply::NotFound,
    }
}

/// Answers a query for the current reading. The state is only read.
pub fn query(state: &AppState) -> (reply: QueryReply)
    ensures
        reply == reply_for(state@.latest),
{
    answer(state.current())
}

/// The error text of the answer when there is no reading yet.
pub fn no_data_message() -> (text: &'static str)
    ensures
        text@ == "No heart rate data available"@,
{
    "No heart rate data available"
}

} // verus!
