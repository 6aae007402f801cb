use heart_rate_bridge::acquisition::AcquisitionLoop;
use heart_rate_bridge::acquisition::LoopAction;
use heart_rate_bridge::acquisition::LoopEvent;
use heart_rate_bridge::acquisition::Phase;
use heart_rate_bridge::acquisition::BACKOFF_SECONDS;
use heart_rate_bridge::error::AcquisitionError;
use heart_rate_bridge::reading::HeartRateData;
use heart_rate_bridge::session::on_notification;
use heart_rate_bridge::session::DeviceSession;
use heart_rate_bridge::session::SessionAction;
use heart_rate_bridge::session::SessionEvent;
use heart_rate_bridge::session::SessionState;
use heart_rate_bridge::session::HEART_RATE_MEASUREMENT;
use heart_rate_bridge::session::HEART_RATE_SERVICE;

fn notification(bytes: &[u8], timestamp: u64) -> SessionEvent {
    SessionEvent::Notification { bytes: bytes.to_vec(), timestamp }
}

fn streaming_session() -> DeviceSession {
    let (mut session, _) = DeviceSession::start();
    session.handle(&SessionEvent::Probed { connected: true });
    session.handle(&SessionEvent::ServicesDiscovered { count: 1 });
    session.handle(&SessionEvent::CharacteristicsDiscovered { count: 1 });
    session
}

#[test]
fn session_connects_discovers_and_subscribes() {
    let (mut session, first) = DeviceSession::start();
    assert_eq!(first, SessionAction::Probe);
    assert_eq!(session.state(), SessionState::Idle);
    assert_eq!(session.handle(&SessionEvent::Probed { connected: false }), SessionAction::Connect);
    assert_eq!(session.state(), SessionState::Connecting);
    assert_eq!(
        session.handle(&SessionEvent::ConnectFinished { accepted: true }),
        SessionAction::DiscoverService { uuid16: 0x180D }
    );
    assert_eq!(session.state(), SessionState::DiscoveringService);
    assert_eq!(
        session.handle(&SessionEvent::ServicesDiscovered { count: 1 }),
        SessionAction::DiscoverCharacteristic { uuid16: 0x2A37 }
    );
    assert_eq!(session.state(), SessionState::DiscoveringCharacteristic);
    assert_eq!(
        session.handle(&SessionEvent::CharacteristicsDiscovered { count: 2 }),
        SessionAction::Subscribe
    );
    assert_eq!(session.state(), SessionState::Subscribed);
    assert!(!session.is_over());
    assert_eq!(HEART_RATE_SERVICE, 0x180D);
    assert_eq!(HEART_RATE_MEASUREMENT, 0x2A37);
}

#[test]
fn session_skips_connect_when_already_connected() {
    let (mut session, _) = DeviceSession::start();
    assert_eq!(
        session.handle(&SessionEvent::Probed { connected: true }),
        SessionAction::DiscoverService { uuid16: HEART_RATE_SERVICE }
    );
    assert_eq!(session.state(), SessionState::DiscoveringService);
}

#[test]
fn session_emits_decoded_readings_in_order() {
    let mut session = streaming_session();
    assert_eq!(
        session.handle(&notification(&[0x00, 0x46], 100)),
        SessionAction::Emit(HeartRateData {
            value: 70,
            sensor_contact_detected: None,
            timestamp: 100
        })
    );
    assert_eq!(session.state(), SessionState::Streaming);
    assert_eq!(
        session.handle(&notification(&[0x05, 0xF4, 0x01], 101)),
        SessionAction::Emit(HeartRateData {
            value: 500,
            sensor_contact_detected: Some(false),
            timestamp: 101
        })
    );
    assert_eq!(session.state(), SessionState::Streaming);
}

#[test]
fn session_skips_malformed_notification_and_streams_on() {
    let mut session = streaming_session();
    assert_eq!(session.handle(&notification(&[0x01, 0x46], 100)), SessionAction::Skip);
    assert_eq!(session.state(), SessionState::Streaming);
    assert!(!session.is_over());
    assert_eq!(session.handle(&notification(&[], 101)), SessionAction::Skip);
    assert_eq!(
        session.handle(&notification(&[0x06, 0x3C], 102)),
        SessionAction::Emit(HeartRateData {
            value: 60,
            sensor_contact_detected: Some(true),
            timestamp: 102
        })
    );
}

#[test]
fn session_closes_when_notifications_end() {
    let mut session = streaming_session();
    session.handle(&notification(&[0x00, 0x46], 100));
    assert_eq!(session.handle(&SessionEvent::StreamEnded), SessionAction::End);
    assert_eq!(session.state(), SessionState::Closed);
    assert!(session.is_over());
    assert_eq!(session.handle(&notification(&[0x00, 0x46], 101)), SessionAction::End);
    assert_eq!(session.state(), SessionState::Closed);
}

#[test]
fn session_closes_when_notifications_never_start() {
    let mut session = streaming_session();
    assert_eq!(session.state(), SessionState::Subscribed);
    assert_eq!(session.handle(&SessionEvent::StreamEnded), SessionAction::End);
    assert_eq!(session.state(), SessionState::Closed);
}

#[test]
fn session_fails_on_rejected_connection() {
    let (mut session, _) = DeviceSession::start();
    session.handle(&SessionEvent::Probed { connected: false });
    assert_eq!(
        session.handle(&SessionEvent::ConnectFinished { accepted: false }),
        SessionAction::End
    );
    assert_eq!(session.state(), SessionState::Failed(AcquisitionError::ConnectionError));
    assert!(session.is_over());
}

#[test]
fn session_fails_on_missing_service() {
    let (mut session, _) = DeviceSession::start();
    session.handle(&SessionEvent::Probed { connected: true });
    assert_eq!(session.handle(&SessionEvent::ServicesDiscovered { count: 0 }), SessionAction::End);
    assert_eq!(session.state(), SessionState::Failed(AcquisitionError::ServiceNotFound));
}

#[test]
fn session_fails_on_missing_characteristic() {
    let (mut session, _) = DeviceSession::start();
    session.handle(&SessionEvent::Probed { connected: true });
    session.handle(&SessionEvent::ServicesDiscovered { count: 1 });
    assert_eq!(
        session.handle(&SessionEvent::CharacteristicsDiscovered { count: 0 }),
        SessionAction::End
    );
    assert_eq!(session.state(), SessionState::Failed(AcquisitionError::CharacteristicNotFound));
}

#[test]
fn session_ignores_reports_it_does_not_wait_for() {
    let (mut session, _) = DeviceSession::start();
    assert_eq!(session.handle(&SessionEvent::StreamEnded), SessionAction::Ignore);
    assert_eq!(session.handle(&notification(&[0x00, 0x46], 1)), SessionAction::Ignore);
    assert_eq!(session.handle(&SessionEvent::ServicesDiscovered { count: 0 }), SessionAction::Ignore);
    assert_eq!(session.state(), SessionState::Idle);
    let mut resumed = DeviceSession::resume(SessionState::Streaming);
    assert_eq!(resumed.handle(&SessionEvent::Probed { connected: true }), SessionAction::Ignore);
    assert_eq!(resumed.state(), SessionState::Streaming);
}

#[test]
fn notification_action_is_emit_or_skip() {
    assert_eq!(
        on_notification(&[0x00, 0x46], 8),
        SessionAction::Emit(HeartRateData { value: 70, sensor_contact_detected: None, timestamp: 8 })
    );
    assert_eq!(on_notification(&[0x00], 8), SessionAction::Skip);
}

fn loop_in_session() -> AcquisitionLoop {
    let (mut acquisition, _) = AcquisitionLoop::start();
    acquisition.handle(&LoopEvent::AdapterProbed { available: true });
    acquisition.handle(&LoopEvent::ConnectedDevicesListed { count: 1 });
    acquisition
}

#[test]
fn loop_prefers_a_connected_device() {
    let (mut acquisition, first) = AcquisitionLoop::start();
    assert_eq!(first, LoopAction::AcquireAdapter);
    assert_eq!(acquisition.phase(), Phase::Starting);
    assert_eq!(
        acquisition.handle(&LoopEvent::AdapterProbed { available: true }),
        LoopAction::ListConnected { service: 0x180D }
    );
    assert_eq!(acquisition.phase(), Phase::Locating);
    assert_eq!(
        acquisition.handle(&LoopEvent::ConnectedDevicesListed { count: 2 }),
        LoopAction::Drive(SessionAction::Probe)
    );
    assert_eq!(acquisition.phase(), Phase::InSession(SessionState::Idle));
}

#[test]
fn loop_scans_when_nothing_is_connected() {
    let (mut acquisition, _) = AcquisitionLoop::start();
    acquisition.handle(&LoopEvent::AdapterProbed { available: true });
    assert_eq!(
        acquisition.handle(&LoopEvent::ConnectedDevicesListed { count: 0 }),
        LoopAction::Scan { service: 0x180D }
    );
    assert_eq!(acquisition.phase(), Phase::Scanning);
    assert_eq!(
        acquisition.handle(&LoopEvent::ScanFinished { found: true }),
        LoopAction::Drive(SessionAction::Probe)
    );
    assert_eq!(acquisition.phase(), Phase::InSession(SessionState::Idle));
}

#[test]
fn loop_halts_without_adapter() {
    let (mut acquisition, _) = AcquisitionLoop::start();
    assert_eq!(
        acquisition.handle(&LoopEvent::AdapterProbed { available: false }),
        LoopAction::Halt(AcquisitionError::AdapterUnavailable)
    );
    assert_eq!(acquisition.phase(), Phase::Halted);
    assert_eq!(
        acquisition.handle(&LoopEvent::BackoffElapsed),
        LoopAction::Halt(AcquisitionError::AdapterUnavailable)
    );
    assert_eq!(acquisition.phase(), Phase::Halted);
}

#[test]
fn loop_backs_off_when_scan_finds_nothing() {
    let (mut acquisition, _) = AcquisitionLoop::start();
    acquisition.handle(&LoopEvent::AdapterProbed { available: true });
    acquisition.handle(&LoopEvent::ConnectedDevicesListed { count: 0 });
    assert_eq!(
        acquisition.handle(&LoopEvent::ScanFinished { found: false }),
        LoopAction::Backoff { seconds: 5, cause: Some(AcquisitionError::NoDeviceFound) }
    );
    assert_eq!(acquisition.phase(), Phase::BackingOff(Some(AcquisitionError::NoDeviceFound)));
}

#[test]
fn loop_backs_off_five_seconds_after_normal_close() {
    let mut acquisition = loop_in_session();
    acquisition.handle(&LoopEvent::Session(SessionEvent::Probed { connected: true }));
    acquisition.handle(&LoopEvent::Session(SessionEvent::ServicesDiscovered { count: 1 }));
    assert_eq!(
        acquisition.handle(&LoopEvent::Session(SessionEvent::CharacteristicsDiscovered {
            count: 1
        })),
        LoopAction::Drive(SessionAction::Subscribe)
    );
    assert_eq!(
        acquisition.handle(&LoopEvent::Session(notification(&[0x00, 0x46], 50))),
        LoopAction::Drive(SessionAction::Emit(HeartRateData {
            value: 70,
            sensor_contact_detected: None,
            timestamp: 50
        }))
    );
    assert_eq!(
        acquisition.handle(&LoopEvent::Session(notification(&[0x01], 51))),
        LoopAction::Drive(SessionAction::Skip)
    );
    assert_eq!(acquisition.phase(), Phase::InSession(SessionState::Streaming));
    assert_eq!(
        acquisition.handle(&LoopEvent::Session(SessionEvent::StreamEnded)),
        LoopAction::Backoff { seconds: 5, cause: None }
    );
    assert_eq!(acquisition.phase(), Phase::BackingOff(None));
    assert_eq!(BACKOFF_SECONDS, 5);
}

#[test]
fn loop_backs_off_after_each_session_failure() {
    let mut acquisition = loop_in_session();
    acquisition.handle(&LoopEvent::Session(SessionEvent::Probed { connected: false }));
    assert_eq!(
        acquisition.handle(&LoopEvent::Session(SessionEvent::ConnectFinished { accepted: false })),
        LoopAction::Backoff { seconds: 5, cause: Some(AcquisitionError::ConnectionError) }
    );

    let mut acquisition = loop_in_session();
    acquisition.handle(&LoopEvent::Session(SessionEvent::Probed { connected: true }));
    assert_eq!(
        acquisition.handle(&LoopEvent::Session(SessionEvent::ServicesDiscovered { count: 0 })),
        LoopAction::Backoff { seconds: 5, cause: Some(AcquisitionError::ServiceNotFound) }
    );

    let mut acquisition = loop_in_session();
    acquisition.handle(&LoopEvent::Session(SessionEvent::Probed { connected: true }));
    acquisition.handle(&LoopEvent::Session(SessionEvent::ServicesDiscovered { count: 1 }));
    assert_eq!(
        acquisition
            .handle(&LoopEvent::Session(SessionEvent::CharacteristicsDiscovered { count: 0 })),
        LoopAction::Backoff { seconds: 5, cause: Some(AcquisitionError::CharacteristicNotFound) }
    );
}

#[test]
fn loop_retries_only_after_backoff_elapsed() {
    let mut acquisition = AcquisitionLoop::resume(Phase::BackingOff(None));
    assert_eq!(
        acquisition.handle(&LoopEvent::ConnectedDevicesListed { count: 1 }),
        LoopAction::Ignore
    );
    assert_eq!(acquisition.handle(&LoopEvent::ScanFinished { found: true }), LoopAction::Ignore);
    assert_eq!(
        acquisition.handle(&LoopEvent::Session(SessionEvent::StreamEnded)),
        LoopAction::Ignore
    );
    assert_eq!(
        acquisition.handle(&LoopEvent::AdapterProbed { available: true }),
        LoopAction::Ignore
    );
    assert_eq!(acquisition.phase(), Phase::BackingOff(None));
    assert_eq!(
        acquisition.handle(&LoopEvent::BackoffElapsed),
        LoopAction::ListConnected { service: HEART_RATE_SERVICE }
    );
    assert_eq!(acquisition.phase(), Phase::Locating);
}

#[test]
fn loop_runs_iteration_after_iteration() {
    let (mut acquisition, _) = AcquisitionLoop::start();
    acquisition.handle(&LoopEvent::AdapterProbed { available: true });
    let mut round: u32 = 0;
    while round < 50 {
        assert_eq!(acquisition.phase(), Phase::Locating);
        acquisition.handle(&LoopEvent::ConnectedDevicesListed { count: 0 });
        assert_eq!(
            acquisition.handle(&LoopEvent::ScanFinished { found: false }),
            LoopAction::Backoff { seconds: 5, cause: Some(AcquisitionError::NoDeviceFound) }
        );
        assert_eq!(
            acquisition.handle(&LoopEvent::BackoffElapsed),
            LoopAction::ListConnected { service: HEART_RATE_SERVICE }
        );
        round += 1;
    }
}

#[test]
fn loop_ignores_reports_it_does_not_wait_for() {
    let (mut acquisition, _) = AcquisitionLoop::start();
    assert_eq!(acquisition.handle(&LoopEvent::BackoffElapsed), LoopAction::Ignore);
    assert_eq!(acquisition.phase(), Phase::Starting);
    let mut acquisition = loop_in_session();
    assert_eq!(acquisition.handle(&LoopEvent::BackoffElapsed), LoopAction::Ignore);
    assert_eq!(
        acquisition.handle(&LoopEvent::Session(SessionEvent::StreamEnded)),
        LoopAction::Drive(SessionAction::Ignore)
    );
    assert_eq!(acquisition.phase(), Phase::InSession(SessionState::Idle));
}
