//! The acquisition loop: finds the sensor, runs one device session after the
//! other, and waits out a fixed backoff between them, without end.
//!
//! Like the session, the loop decides and its driver performs. An iteration
//! locates a device (one that is connected already, else the first that a
//! scan turns up) and drives a session on it. However the iteration ends,
//! the loop asks for the backoff, and only the report that the backoff has
//! elapsed starts the next iteration.

use vstd::prelude::*;
use crate::error::AcquisitionError;
use crate::session::session_next;
use crate::session::DeviceSession;
use crate::session::SessionAction;
use crate::session::SessionEvent;
use crate::session::SessionState;
use crate::session::HEART_RATE_SERVICE;

verus! {

/// Seconds to wait between two iterations.
pub const BACKOFF_SECONDS: u64 = 5;

/// Where the loop stands.
#[derive(Debug, Clone, Copy, PartialEq, Eq, Structural)]
pub enum Phase {
    /// Before the first iteration: the Bluetooth adapter is being acquired.
    Starting,
    /// Asking for devices that are connected already.
    Locating,
    /// Scanning for a device.
    Scanning,
    /// Driving a session that stands in this state.
    InSession(SessionState),
    /// The iteration is over, with this error or normally; the backoff runs.
    BackingOff(Option<AcquisitionError>),
    /// There is no usable adapter. The loop has stopped for good.
    Halted,
}

/// What the driver reports back to the loop.
#[derive(Debug, Clone, PartialEq, Eq)]
pub enum LoopEvent {
    /// Answer to `AcquireAdapter`: whether a usable adapter is there.
    AdapterProbed { available: bool },
    /// Answer to `ListConnected`: how many connected devices offer the
    /// service. A listing that failed found none.
    ConnectedDevicesListed { count: usize },
    /// Answer to `Scan`: whether the scan produced a device before it ended.
    ScanFinished { found: bool },
    /// A report for the running session.
    Session(SessionEvent),
    /// Answer to `Backoff`: the delay has passed.
    BackoffElapsed,
}

/// What the loop asks its driver to do next.
#[derive(Debug, Clone, Copy, PartialEq, Eq, Structural)]
pub enum LoopAction {
    /// Acquire the Bluetooth adapter and wait until it is available.
    AcquireAdapter,
    /// List the connected devices that offer this service. This begins an
    /// iteration.
    ListConnected { service: u16 },
    /// Scan for devices that offer this service and take the first.
    Scan { service: u16 },
    /// Do this for the session on the device that was found.
    Drive(SessionAction),
    /// The iteration is over, with this error or normally. Wait this many
    /// seconds, then report `BackoffElapsed`.
    Backoff { seconds: u64, cause: Option<AcquisitionError> },
    /// The event does not answer what the loop waits for: keep waiting.
    Ignore,
    /// The loop has stopped for good with this error.
    Halt(AcquisitionError),
}

impl Phase {
    /// An iteration is under way.
    pub open spec fn iterating(self) -> bool {
        self is Locating || self is Scanning || self is InSession
    }
}

/// The phase and the action with which an iteration ends.
pub open spec fn iteration_end(cause: Option<AcquisitionError>) -> (Phase, LoopAction) {
    (Phase::BackingOff(cause), LoopAction::Backoff { seconds: BACKOFF_SECONDS, cause })
}

/// The phase and the action with which an iteration begins.
pub open spec fn iteration_begin() -> (Phase, LoopAction) {
    (Phase::Locating, LoopAction::ListConnected { service: HEART_RATE_SERVICE })
}

/// The phase and the action with which a session begins on a device that was
/// found.
pub open spec fn session_begin() -> (Phase, LoopAction) {
    (Phase::InSession(SessionState::Idle), LoopAction::Drive(SessionAction::Probe))
}

/// The phase and the action that follow when `event` reaches a loop in
/// `phase`.
pub open spec fn loop_next(phase: Phase, event: LoopEvent) -> (Phase, LoopAction) {
    match (phase, event) {
        (Phase::Halted, _) => (Phase::Halted, LoopAction::Halt(AcquisitionError::AdapterUnavailable)),
        (Phase::Starting, LoopEvent::AdapterProbed { available }) => if available {
            iteration_begin()
        } else {
            (Phase::Halted, LoopAction::Halt(AcquisitionError::AdapterUnavailable))
        },
        (Phase::Locating, LoopEvent::ConnectedDevicesListed { count }) => if count > 0 {
            session_begin()
        } else {
            (Phase::Scanning, LoopAction::Scan { service: HEART_RATE_SERVICE })
        },
        (Phase::Scanning, LoopEvent::ScanFinished { found }) => if found {
            session_begin()
        } else {
            iteration_end(Some(AcquisitionError::NoDeviceFound))
        },
        (Phase::InSession(state), LoopEvent::Session(report)) => {
            let (state_after, action) = session_next(state, report);
            if state_after.over() {
                iteration_end(state_after.failure())
            } else {
                (Phase::InSession(state_after), LoopAction::Drive(action))
            }
        },
        (Phase::BackingOff(_), LoopEvent::BackoffElapsed) => iteration_begin(),
        _ => (phase, LoopAction::Ignore),
    }
}

/// The acquisition loop.
pub struct AcquisitionLoop {
    phase: Phase,
}

impl View for AcquisitionLoop {
    type V = Phase;

    closed spec fn view(&self) -> Phase {
        self.phase
    }
}

impl AcquisitionLoop {
    /// A new loop and the first thing to do for it: it is `Starting`, and
    /// the driver is to acquire the adapter.
    pub fn start() -> (r: (AcquisitionLoop, LoopAction))
        ensures
            r.0@ == Phase::Starting,
            r.1 == LoopAction::AcquireAdapter,
    {
        (AcquisitionLoop { phase: Phase::Starting }, LoopAction::AcquireAdapter)
    }

    /// A loop that stands in `phase`.
    pub fn resume(phase: Phase) -> (acquisition: AcquisitionLoop)
        ensures
            acquisition@ == phase,
    {
        AcquisitionLoop { phase }
    }

    /// Where the loop stands.
    pub fn phase(&self) -> (phase: Phase)
        ensures
            phase == self@,
    {
        self.phase
    }

    /// Takes the driver's report and says what to do next.
    ///
    /// Without an adapter the loop halts for good. Every other failure, and
    /// the normal end of a session too, ends the iteration with a request to
    /// back off for `BACKOFF_SECONDS`; the next iteration begins when that
    /// delay is reported as elapsed, and on nothing else. An event that does
    /// not answer what the loop waits for changes nothing.
    pub fn handle(&mut self, event: &LoopEvent) -> (action: LoopAction)
        ensures
            (final(self)@, action) == loop_next(old(self)@, *event),
    {
        let (phase, action) = match (self.phase, event) {
            (Phase::Halted, _) => (
                Phase::Halted,
                LoopAction::Halt(AcquisitionError::AdapterUnavailable),
            ),
            (Phase::Starting, LoopEvent::AdapterProbed { available }) => if *available {
                begin_iteration()
            } else {
                (Phase::Halted, LoopAction::Halt(AcquisitionError::AdapterUnavailable))
            },
            (Phase::Locating, LoopEvent::ConnectedDevicesListed { count }) => if *count > 0 {
                begin_session()
            } else {
                (Phase::Scanning, LoopAction::Scan { service: HEART_RATE_SERVICE })
            },
            (Phase::Scanning, LoopEvent::ScanFinished { found }) => if *found {
                begin_session()
            } else {
                end_iteration(Some(AcquisitionError::NoDeviceFound))
            },
            (Phase::InSession(state), LoopEvent::Session(report)) => {
                let mut session = DeviceSession::resume(state);
                let action = session.handle(report);
                match session.state() {
                    SessionState::Closed => end_iteration(None),
                    SessionState::Failed(e) => end_iteration(Some(e)),
                    state_after => (Phase::InSession(state_after), LoopAction::Drive(action)),
                }
            },
            (Phase::BackingOff(_), LoopEvent::BackoffElapsed) => begin_iteration(),
            _ => (self.phase, LoopAction::Ignore),
        };
        self.phase = phase;
        action
    }
}

fn begin_iteration() -> (r: (Phase, LoopAction))
    ensures
        r == iteration_begin(),
{
    (Phase::Locating, LoopAction::ListConnected { service: HEART_RATE_SERVICE })
}

fn begin_session() -> (r: (Phase, LoopAction))
    ensures
        r == session_begin(),
{
    (Phase::InSession(SessionState::Idle), LoopAction::Drive(SessionAction::Probe))
}

fn end_iteration(cause: Option<AcquisitionError>) -> (r: (Phase, LoopAction))
    ensures
        r == iteration_end(cause),
{
    (Phase::BackingOff(cause), LoopAction::Backoff { seconds: BACKOFF_SECONDS, cause })
}

/// The phase in which event number `i` of a history finds the loop.
pub open spec fn phase_at(start: Phase, events: Seq<LoopEvent>, i: int) -> Phase
    recommends
        0 <= i <= events.len(),
    decreases i,
{
    if i <= 0 {
        start
    } else {
        loop_next(phase_at(start, events, i - 1), events[i - 1]).0
    }
}

/// The action with which the loop answers event number `i` of a history.
pub open spec fn action_at(start: Phase, events: Seq<LoopEvent>, i: int) -> LoopAction
    recommends
        0 <= i < events.len(),
{
    loop_next(phase_at(start, events, i), events[i]).1
}

/// However an iteration ends, the loop asks for the backoff of
/// `BACKOFF_SECONDS` and waits.
///
/// This covers the scan that found nothing, the session that failed and the
/// session that closed normally.
pub proof fn lemma_iteration_ends_in_backoff(phase: Phase, event: LoopEvent)
    requires
        phase.iterating(),
        !loop_next(phase, event).0.iterating(),
    ensures
        loop_next(phase, event).0 is BackingOff,
        loop_next(phase, event).1 == (LoopAction::Backoff {
            seconds: BACKOFF_SECONDS,
            cause: loop_next(phase, event).0->BackingOff_0,
        }),
        BACKOFF_SECONDS == 5,
{
}

/// While the backoff runs, nothing but its end moves the loop, and its end
/// begins the next iteration.
pub proof fn lemma_backoff_is_waited_out(phase: Phase, event: LoopEvent)
    requires
        phase is BackingOff,
    ensures
        event == LoopEvent::BackoffElapsed ==> loop_next(phase, event) == iteration_begin(),
        event != LoopEvent::BackoffElapsed ==> loop_next(phase, event) == (
            phase,
            LoopAction::Ignore,
        ),
{
}

/// An iteration begins on the first adapter report or on the end of a
/// backoff, and on nothing else.
pub proof fn lemma_iteration_begins(phase: Phase, event: LoopEvent)
    requires
        loop_next(phase, event).1 is ListConnected,
    ensures
        loop_next(phase, event) == iteration_begin(),
        (phase is Starting && event == LoopEvent::AdapterProbed { available: true }) || (phase
            is BackingOff && event == LoopEvent::BackoffElapsed),
{
}

/// Every recoverable end of a session ends the iteration, not the loop: the
/// loop backs off with the session's error as the cause, or with none after a
/// normal close.
pub proof fn lemma_session_end_is_retried(state: SessionState, report: SessionEvent)
    requires
        !state.over(),
        session_next(state, report).0.over(),
    ensures
        loop_next(Phase::InSession(state), LoopEvent::Session(report)) == iteration_end(
            session_next(state, report).0.failure(),
        ),
        session_next(state, report).0.failure() matches Some(e) ==> e.recoverable(),
{
}

/// The loop halts only for want of an adapter, and once halted stays so.
pub proof fn lemma_halt(phase: Phase, event: LoopEvent)
    ensures
        loop_next(phase, event).0 is Halted <==> phase is Halted || (phase is Starting && event
            == LoopEvent::AdapterProbed { available: false }),
        loop_next(phase, event).0 is Halted <==> loop_next(phase, event).1 == LoopAction::Halt(
            AcquisitionError::AdapterUnavailable,
        ),
{
}

/// A loop that is found backing off, in a history that began before the
/// first iteration, asked for the backoff at some earlier event and has done
/// nothing but wait since.
pub proof fn lemma_backoff_was_requested(events: Seq<LoopEvent>, i: int) -> (j: int)
    requires
        0 <= i <= events.len(),
        phase_at(Phase::Starting, events, i) is BackingOff,
    ensures
        0 <= j < i,
        phase_at(Phase::Starting, events, j).iterating(),
        action_at(Phase::Starting, events, j) == (LoopAction::Backoff {
            seconds: BACKOFF_SECONDS,
            cause: phase_at(Phase::Starting, events, i)->BackingOff_0,
        }),
        forall|k: int|
            j < k < i ==> phase_at(Phase::Starting, events, k) == phase_at(
                Phase::Starting,
                events,
                i,
            ) && #[trigger] action_at(Phase::Starting, events, k) == LoopAction::Ignore,
    decreases i,
{
    let before = phase_at(Phase::Starting, events, i - 1);
    if before is BackingOff {
        let j = lemma_backoff_was_requested(events, i - 1);
        lemma_backoff_is_waited_out(before, events[i - 1]);
        j
    } else {
        i - 1
    }
}

/// The retry waits for the backoff.
///
/// Take any history that began before the first iteration, and in it an
/// event that is answered by beginning an iteration other than the first.
/// That event is the report that the backoff has elapsed. The backoff was
/// asked for, with `BACKOFF_SECONDS`, when the iteration before ended, and
/// between that request and this report the loop has answered nothing but
/// `Ignore`.
pub proof fn lemma_retry_waits_for_backoff(events: Seq<LoopEvent>, i: int) -> (j: int)
    requires
        0 <= i < events.len(),
        action_at(Phase::Starting, events, i) is ListConnected,
        !(phase_at(Phase::Starting, events, i) is Starting),
    ensures
        events[i] == LoopEvent::BackoffElapsed,
        0 <= j < i,
        phase_at(Phase::Starting, events, j).iterating(),
        action_at(Phase::Starting, events, j) matches LoopAction::Backoff { seconds, .. }
            && seconds == 5,
        forall|k: int|
            j < k < i ==> #[trigger] action_at(Phase::Starting, events, k) == LoopAction::Ignore,
{
    let phase = phase_at(Phase::Starting, events, i);
    lemma_iteration_begins(phase, events[i]);
    lemma_backoff_was_requested(events, i)
}

} // verus!
