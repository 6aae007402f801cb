//! The subscriber session: one live consumer on the distribution side.
//!
//! A subscriber attaches, is sent the latest reading at once if there is
//! one, and from then on every reading that is published, in order. Besides
//! that it may send control messages, which are answered here. The session
//! decides; its driver owns the connection, sends and receives.

use vstd::prelude::*;
use crate::distribution::AppState;
use crate::distribution::DistributionState;
use crate::reading::HeartRateData;

verus! {

/// A message from the subscriber.
#[derive(Debug, Clone, PartialEq, Eq)]
pub enum Inbound {
    /// A liveness probe of the transport, with its payload.
    Ping(Vec<u8>),
    /// The answer to a probe of ours.
    Pong,
    /// A text message.
    Text(String),
    /// The subscriber closes the connection.
    Close,
    /// Any other kind of message.
    Other,
    /// The connection reported an error.
    Broken,
}

/// What to do about a message from the subscriber.
#[derive(Debug, Clone, PartialEq, Eq)]
pub enum Reply {
    /// Answer the probe with this payload.
    Pong(Vec<u8>),
    /// Send this text.
    Text(String),
    /// Send nothing and keep listening.
    Nothing,
    /// End the session.
    Stop,
}

/// What to send next on the live stream.
#[derive(Debug, Clone, Copy, PartialEq, Eq, Structural)]
pub enum Forward {
    /// Send this reading, then ask again.
    Deliver(HeartRateData),
    /// Nothing waits: ask again after the next publication.
    Wait,
    /// The session is over: it was closed, or the subscriber fell behind
    /// and was disconnected.
    Stop,
}

/// The text is the request for a liveness echo.
pub open spec fn is_liveness_request(text: Seq<char>) -> bool {
    text == "ping"@
}

/// The answer to `message`.
///
/// A probe is answered with its own payload, and the text `ping` with the
/// text `pong`. Answers to our probes and other texts need no answer. A
/// close, an error and any other kind of message end the session.
pub open spec fn answers(message: Inbound, reply: Reply) -> bool {
    match message {
        Inbound::Ping(payload) => reply == Reply::Pong(payload),
        Inbound::Pong => reply == Reply::Nothing,
        Inbound::Text(text) => if is_liveness_request(text@) {
            reply matches Reply::Text(echo) && echo@ == "pong"@
        } else {
            reply == Reply::Nothing
        },
        Inbound::Close => reply == Reply::Stop,
        Inbound::Other => reply == Reply::Stop,
        Inbound::Broken => reply == Reply::Stop,
    }
}

/// Says what to do about a message from the subscriber.
pub fn control_reply(message: Inbound) -> (reply: Reply)
    ensures
        answers(message, reply),
{
    match message {
        Inbound::Ping(payload) => Reply::Pong(payload),
        Inbound::Pong => Reply::Nothing,
        Inbound::Text(text) => {
            let request: String = "ping".to_owned();
            if text == request {
                Reply::Text("pong".to_owned())
            } else {
                Reply::Nothing
            }
        },
        Inbound::Close => Reply::Stop,
        Inbound::Other => Reply::Stop,
        Inbound::Broken => Reply::Stop,
    }
}

/// Mathematical state of a subscriber session.
pub struct SubscriberState {
    /// The identifier under which the subscriber is attached to the hub.
    pub id: u64,
    /// The session has not ended.
    pub open: bool,
}

/// One live consumer.
pub struct SubscriberSession {
    id: u64,
    open: bool,
}

impl View for SubscriberSession {
    type V = SubscriberState;

    closed spec fn view(&self) -> SubscriberState {
        SubscriberState { id: self.id, open: self.open }
    }
}

/// What the next thing to send is, for a session in `session` on the
/// distribution state `state`.
pub open spec fn forward_for(session: SubscriberState, state: DistributionState) -> Forward {
    if !session.open || !state.hub.attached(session.id) {
        Forward::Stop
    } else {
        match state.hub.front(session.id) {
            Some(reading) => Forward::Deliver(reading),
            None => Forward::Wait,
        }
    }
}

impl SubscriberSession {
    /// Attaches a new subscriber. Returns its session and the snapshot to
    /// send at once: the latest reading, or `None` before the first one.
    /// What is published from now on waits for the session in order.
    ///
    /// `None` when the hub has no identifier left; nothing changes then.
    pub fn attach(state: &mut AppState) -> (r: Option<(SubscriberSession, Option<HeartRateData>)>)
        requires
            old(state).wf(),
        ensures
            final(state).wf(),
            r is Some <==> old(state)@.hub.has_room(),
            r matches Some((session, snapshot)) ==> {
                &&& session@.open
                &&& session@.id == old(state)@.hub.next_id
                &&& snapshot == old(state)@.latest
                &&& final(state)@ == old(state)@.attached_one()
            },
            r is None ==> final(state)@ == old(state)@,
    {
        match state.attach() {
            Some(attachment) => Some(
                (SubscriberSession { id: attachment.id, open: true }, attachment.snapshot),
            ),
            None => None,
        }
    }

    /// The identifier under which the subscriber is attached.
    pub fn id(&self) -> (id: u64)
        ensures
            id == self@.id,
    {
        self.id
    }

    /// Whether the session has not ended.
    pub fn is_open(&self) -> (open: bool)
        ensures
            open == self@.open,
    {
        self.open
    }

    /// Takes a message from the subscriber and says what to do about it.
    ///
    /// On an open session this is `control_reply`, and the session ends when
    /// that says `Stop`. On a session that has ended it is `Stop`.
    pub fn on_inbound(&mut self, message: Inbound) -> (reply: Reply)
        ensures
            final(self)@.id == old(self)@.id,
            old(self)@.open ==> answers(message, reply),
            !old(self)@.open ==> reply == Reply::Stop,
            final(self)@.open == (old(self)@.open && reply != Reply::Stop),
    {
        if !self.open {
            return Reply::Stop;
        }
        let reply = control_reply(message);
        match reply {
            Reply::Stop => {
                self.open = false;
            },
            _ => {},
        }
        reply
    }

    /// Records that something could not be sent to the subscriber: the
    /// session ends.
    pub fn on_send_failed(&mut self)
        ensures
            final(self)@.id == old(self)@.id,
            !final(self)@.open,
    {
        self.open = false;
    }

    /// Says what to send next on the live stream, and takes it from the hub.
    ///
    /// The readings come in the order of their publication. A session that
    /// has ended, or whose subscriber fell behind and was disconnected, gets
    /// `Stop` and has ended from then on.
    pub fn next_outbound(&mut self, state: &mut AppState) -> (forward: Forward)
        requires
            old(state).wf(),
        ensures
            final(state).wf(),
            forward == forward_for(old(self)@, old(state)@),
            final(self)@.id == old(self)@.id,
            final(self)@.open == (forward != Forward::Stop),
            final(state)@ == if forward is Deliver {
                old(state)@.delivered(old(self)@.id)
            } else {
                old(state)@
            },
    {
        if !self.open {
            return Forward::Stop;
        }
        if !state.is_attached(self.id) {
            self.open = false;
            return Forward::Stop;
        }
        match state.next_for(self.id) {
            Some(reading) => Forward::Deliver(reading),
            None => Forward::Wait,
        }
    }

    /// Ends the session and releases what the hub held for it. The other
    /// subscribers are untouched.
    pub fn release(&mut self, state: &mut AppState)
        requires
            old(state).wf(),
        ensures
            final(state).wf(),
            final(self)@.id == old(self)@.id,
            !final(self)@.open,
            final(state)@ == old(state)@.detached(old(self)@.id),
    {
        self.open = false;
        let _ = state.detach(self.id);
    }
}

} // verus!
