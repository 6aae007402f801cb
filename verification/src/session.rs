//! The device session: the life of one connection to the sensor.
//!
//! The session decides; its driver performs. The driver carries out the
//! action that the session hands it, waits for the outcome, and reports it as
//! the next event. A session starts `Idle` with the action `Probe` and runs
//! `Idle -> Connecting -> DiscoveringService -> DiscoveringCharacteristic ->
//! Subscribed -> Streaming` until it is `Closed` or `Failed`.

use vstd::prelude::*;
use crate::decoder::decode_measurement;
use crate::decoder::decoded;
use crate::decoder::well_formed;
use crate::error::AcquisitionError;
use crate::reading::HeartRateData;

verus! {

/// Assigned number of the Heart Rate service.
pub const HEART_RATE_SERVICE: u16 = 0x180D;

/// Assigned number of the Heart Rate Measurement characteristic.
pub const HEART_RATE_MEASUREMENT: u16 = 0x2A37;

/// Where a session stands.
#[derive(Debug, Clone, Copy, PartialEq, Eq, Structural)]
pub enum SessionState {
    /// Created; it is not yet known whether the device is connected.
    Idle,
    /// A connection attempt is under way.
    Connecting,
    /// Connected; looking for the heart-rate service.
    DiscoveringService,
    /// Service found; looking for the measurement characteristic.
    DiscoveringCharacteristic,
    /// Notifications are requested; none has arrived yet.
    Subscribed,
    /// At least one notification has arrived.
    Streaming,
    /// The notifications ended. This is how a session ends normally.
    Closed,
    /// The session could not be set up.
    Failed(AcquisitionError),
}

/// What the driver reports back to the session.
#[derive(Debug, Clone, PartialEq, Eq)]
pub enum SessionEvent {
    /// Answer to `Probe`: whether the device is connected already.
    Probed { connected: bool },
    /// Answer to `Connect`: whether the device accepted the connection.
    ConnectFinished { accepted: bool },
    /// Answer to `DiscoverService`: how many matching services the device
    /// has. A lookup that failed found none.
    ServicesDiscovered { count: usize },
    /// Answer to `DiscoverCharacteristic`: how many matching characteristics
    /// the service has. A lookup that failed found none.
    CharacteristicsDiscovered { count: usize },
    /// A notification arrived at `timestamp`, in seconds since the Unix
    /// epoch.
    Notification { bytes: Vec<u8>, timestamp: u64 },
    /// The notifications ended: the device disconnected, stopped notifying,
    /// or they could not be requested.
    StreamEnded,
}

/// What the session asks its driver to do next.
#[derive(Debug, Clone, Copy, PartialEq, Eq, Structural)]
pub enum SessionAction {
    /// Find out whether the device is connected already.
    Probe,
    /// Connect to the device.
    Connect,
    /// Look for the service with this assigned number.
    DiscoverService { uuid16: u16 },
    /// Look for the characteristic with this assigned number.
    DiscoverCharacteristic { uuid16: u16 },
    /// Request notifications and wait for the first.
    Subscribe,
    /// Pass this reading on, then wait for the next notification.
    Emit(HeartRateData),
    /// The notification was malformed: drop it and wait for the next.
    Skip,
    /// The event does not answer what the session waits for: keep waiting.
    Ignore,
    /// The session is over; there is nothing left to do for it.
    End,
}

impl SessionState {
    /// The session is over.
    pub open spec fn over(self) -> bool {
        self is Closed || self is Failed
    }

    /// Notifications are expected in this state.
    pub open spec fn listening(self) -> bool {
        self is Subscribed || self is Streaming
    }

    /// How the session ended: `None` while it runs or after a normal close,
    /// the error after a failure.
    pub open spec fn failure(self) -> Option<AcquisitionError> {
        match self {
            SessionState::Failed(e) => Some(e),
            _ => None,
        }
    }
}

/// The state and the action that follow when `event` reaches a session in
/// `state`.
pub open spec fn session_next(state: SessionState, event: SessionEvent) -> (
    SessionState,
    SessionAction,
) {
    match (state, event) {
        (SessionState::Closed, _) => (state, SessionAction::End),
        (SessionState::Failed(_), _) => (state, SessionAction::End),
        (SessionState::Idle, SessionEvent::Probed { connected }) => if connected {
            (
                SessionState::DiscoveringService,
                SessionAction::DiscoverService { uuid16: HEART_RATE_SERVICE },
            )
        } else {
            (SessionState::Connecting, SessionAction::Connect)
        },
        (SessionState::Connecting, SessionEvent::ConnectFinished { accepted }) => if accepted {
            (
                SessionState::DiscoveringService,
                SessionAction::DiscoverService { uuid16: HEART_RATE_SERVICE },
            )
        } else {
            (SessionState::Failed(AcquisitionError::ConnectionError), SessionAction::End)
        },
        (SessionState::DiscoveringService, SessionEvent::ServicesDiscovered { count }) => if count
            > 0 {
            (
                SessionState::DiscoveringCharacteristic,
                SessionAction::DiscoverCharacteristic { uuid16: HEART_RATE_MEASUREMENT },
            )
        } else {
            (SessionState::Failed(AcquisitionError::ServiceNotFound), SessionAction::End)
        },
        (
            SessionState::DiscoveringCharacteristic,
            SessionEvent::CharacteristicsDiscovered { count },
        ) => if count > 0 {
            (SessionState::Subscribed, SessionAction::Subscribe)
        } else {
            (SessionState::Failed(AcquisitionError::CharacteristicNotFound), SessionAction::End)
        },
        (SessionState::Subscribed, SessionEvent::Notification { bytes, timestamp }) => (
            SessionState::Streaming,
            notification_action(bytes@, timestamp),
        ),
        (SessionState::Streaming, SessionEvent::Notification { bytes, timestamp }) => (
            SessionState::Streaming,
            notification_action(bytes@, timestamp),
        ),
        (SessionState::Subscribed, SessionEvent::StreamEnded) => (
            SessionState::Closed,
            SessionAction::End,
        ),
        (SessionState::Streaming, SessionEvent::StreamEnded) => (
            SessionState::Closed,
            SessionAction::End,
        ),
        _ => (state, SessionAction::Ignore),
    }
}

/// What a notification leads to: the decoded reading is emitted, a malformed
/// notification is skipped.
pub open spec fn notification_action(bytes: Seq<u8>, timestamp: u64) -> SessionAction {
    match decoded(bytes, timestamp) {
        Ok(reading) => SessionAction::Emit(reading),
        Err(_) => SessionAction::Skip,
    }
}

/// One connection to the sensor, from the first probe to the end of the
/// notifications.
pub struct DeviceSession {
    state: SessionState,
}

impl View for DeviceSession {
    type V = SessionState;

    closed spec fn view(&self) -> SessionState {
        self.state
    }
}

impl DeviceSession {
    /// A new session and the first thing to do for it: it is `Idle`, and the
    /// driver is to probe the connection.
    pub fn start() -> (r: (DeviceSession, SessionAction))
        ensures
            r.0@ == SessionState::Idle,
            r.1 == SessionAction::Probe,
    {
        (DeviceSession { state: SessionState::Idle }, SessionAction::Probe)
    }

    /// A session that stands in `state`.
    pub fn resume(state: SessionState) -> (session: DeviceSession)
        ensures
            session@ == state,
    {
        DeviceSession { state }
    }

    /// Where the session stands.
    pub fn state(&self) -> (state: SessionState)
        ensures
            state == self@,
    {
        self.state
    }

    /// Whether the session is over, closed or failed.
    pub fn is_over(&self) -> (over: bool)
        ensures
            over == self@.over(),
    {
        match self.state {
            SessionState::Closed => true,
            SessionState::Failed(_) => true,
            _ => false,
        }
    }

    /// Takes the driver's report and says what to do next.
    ///
    /// A malformed notification is skipped and the session goes on. The
    /// session fails only while it is set up: on a rejected connection, a
    /// missing service or a missing characteristic. The end of the
    /// notifications closes it. An event that does not answer what the
    /// session waits for changes nothing.
    pub fn handle(&mut self, event: &SessionEvent) -> (action: SessionAction)
        ensures
            (final(self)@, action) == session_next(old(self)@, *event),
    {
        let (state, action) = match (self.state, event) {
            (SessionState::Closed, _) => (self.state, SessionAction::End),
            (SessionState::Failed(_), _) => (self.state, SessionAction::End),
            (SessionState::Idle, SessionEvent::Probed { connected }) => if *connected {
                (
                    SessionState::DiscoveringService,
                    SessionAction::DiscoverService { uuid16: HEART_RATE_SERVICE },
                )
            } else {
                (SessionState::Connecting, SessionAction::Connect)
            },
            (SessionState::Connecting, SessionEvent::ConnectFinished { accepted }) => if *accepted {
                (
                    SessionState::DiscoveringService,
                    SessionAction::DiscoverService { uuid16: HEART_RATE_SERVICE },
                )
            } else {
                (SessionState::Failed(AcquisitionError::ConnectionError), SessionAction::End)
            },
            (SessionState::DiscoveringService, SessionEvent::ServicesDiscovered { count }) => if *count
                > 0 {
                (
                    SessionState::DiscoveringCharacteristic,
                    SessionAction::DiscoverCharacteristic { uuid16: HEART_RATE_MEASUREMENT },
                )
            } else {
                (SessionState::Failed(AcquisitionError::ServiceNotFound), SessionAction::End)
            },
            (
                SessionState::DiscoveringCharacteristic,
                SessionEvent::CharacteristicsDiscovered { count },
            ) => if *count > 0 {
                (SessionState::Subscribed, SessionAction::Subscribe)
            } else {
                (
                    SessionState::Failed(AcquisitionError::CharacteristicNotFound),
                    SessionAction::End,
                )
            },
            (SessionState::Subscribed, SessionEvent::Notification { bytes, timestamp }) => (
                SessionState::Streaming,
                on_notification(bytes.as_slice(), *timestamp),
            ),
            (SessionState::Streaming, SessionEvent::Notification { bytes, timestamp }) => (
                SessionState::Streaming,
                on_notification(bytes.as_slice(), *timestamp),
            ),
            (SessionState::Subscribed, SessionEvent::StreamEnded) => (
                SessionState::Closed,
                SessionAction::End,
            ),
            (SessionState::Streaming, SessionEvent::StreamEnded) => (
                SessionState::Closed,
                SessionAction::End,
            ),
            _ => (self.state, SessionAction::Ignore),
        };
        self.state = state;
        action
    }
}

/// Decodes a notification received at `timestamp` and says what to do with
/// it: emit the reading, or skip the notification when it is malformed.
pub fn on_notification(bytes: &[u8], timestamp: u64) -> (action: SessionAction)
    ensures
        action == notification_action(bytes@, timestamp),
{
    match decode_measurement(bytes, timestamp) {
        Ok(reading) => SessionAction::Emit(reading),
        Err(_) => SessionAction::Skip,
    }
}

/// A malformed notification does not end the session: it is skipped, and the
/// session streams on.
pub proof fn lemma_malformed_is_skipped(state: SessionState, bytes: Vec<u8>, timestamp: u64)
    requires
        state.listening(),
        !well_formed(bytes@),
    ensures
        session_next(state, SessionEvent::Notification { bytes, timestamp }) == (
            SessionState::Streaming,
            SessionAction::Skip,
        ),
{
}

/// A well-formed notification is emitted as the reading it decodes to,
/// stamped with the time of its arrival, and the session streams on.
pub proof fn lemma_well_formed_is_emitted(state: SessionState, bytes: Vec<u8>, timestamp: u64)
    requires
        state.listening(),
        well_formed(bytes@),
    ensures
        session_next(state, SessionEvent::Notification { bytes, timestamp }).0
            == SessionState::Streaming,
        session_next(state, SessionEvent::Notification { bytes, timestamp }).1
            == SessionAction::Emit(decoded(bytes@, timestamp)->Ok_0),
        decoded(bytes@, timestamp)->Ok_0.timestamp == timestamp,
{
}

/// A session fails only while it is set up, and only with the error of the
/// step that failed; a session that listens can only go on or close.
pub proof fn lemma_failures(state: SessionState, event: SessionEvent)
    requires
        !state.over(),
        session_next(state, event).0 is Failed,
    ensures
        state is Connecting ==> session_next(state, event).0.failure() == Some(
            AcquisitionError::ConnectionError,
        ),
        state is DiscoveringService ==> session_next(state, event).0.failure() == Some(
            AcquisitionError::ServiceNotFound,
        ),
        state is DiscoveringCharacteristic ==> session_next(state, event).0.failure() == Some(
            AcquisitionError::CharacteristicNotFound,
        ),
        state is Connecting || state is DiscoveringService || state is DiscoveringCharacteristic,
{
}

/// A session that is over stays as it is and asks for nothing more.
pub proof fn lemma_over_is_final(state: SessionState, event: SessionEvent)
    requires
        state.over(),
    ensures
        session_next(state, event) == (state, SessionAction::End),
{
}

/// `End` is the action of exactly those steps after which the session is
/// over.
pub proof fn lemma_end_iff_over(state: SessionState, event: SessionEvent)
    ensures
        session_next(state, event).1 == SessionAction::End <==> session_next(state, event).0.over(),
{
}

} // verus!
