use heart_rate_bridge::distribution::AppState;
use heart_rate_bridge::reading::HeartRateData;
use heart_rate_bridge::subscriber::control_reply;
use heart_rate_bridge::subscriber::Forward;
use heart_rate_bridge::subscriber::Inbound;
use heart_rate_bridge::subscriber::Reply;
use heart_rate_bridge::subscriber::SubscriberSession;

fn sample(value: u16, timestamp: u64) -> HeartRateData {
    HeartRateData { value, sensor_contact_detected: None, timestamp }
}

#[test]
fn transport_probe_is_answered_with_its_payload() {
    assert_eq!(control_reply(Inbound::Ping(vec![1, 2, 3])), Reply::Pong(vec![1, 2, 3]));
    assert_eq!(control_reply(Inbound::Ping(vec![])), Reply::Pong(vec![]));
}

#[test]
fn text_ping_is_answered_with_text_pong() {
    assert_eq!(control_reply(Inbound::Text("ping".to_string())), Reply::Text("pong".to_string()));
}

#[test]
fn other_text_and_pong_need_no_answer() {
    assert_eq!(control_reply(Inbound::Text("Ping".to_string())), Reply::Nothing);
    assert_eq!(control_reply(Inbound::Text("ping ".to_string())), Reply::Nothing);
    assert_eq!(control_reply(Inbound::Text("pong".to_string())), Reply::Nothing);
    assert_eq!(control_reply(Inbound::Text(String::new())), Reply::Nothing);
    assert_eq!(control_reply(Inbound::Pong), Reply::Nothing);
}

#[test]
fn close_error_and_other_messages_stop_the_session() {
    assert_eq!(control_reply(Inbound::Close), Reply::Stop);
    assert_eq!(control_reply(Inbound::Other), Reply::Stop);
    assert_eq!(control_reply(Inbound::Broken), Reply::Stop);
}

#[test]
fn attached_session_gets_snapshot_and_live_stream() {
    let mut state = AppState::new(100);
    state.publish(sample(64, 1));
    let (mut session, snapshot) = SubscriberSession::attach(&mut state).unwrap();
    assert_eq!(snapshot, Some(sample(64, 1)));
    assert!(session.is_open());
    assert_eq!(session.next_outbound(&mut state), Forward::Wait);
    state.publish(sample(65, 2));
    state.publish(sample(66, 3));
    assert_eq!(session.next_outbound(&mut state), Forward::Deliver(sample(65, 2)));
    assert_eq!(session.next_outbound(&mut state), Forward::Deliver(sample(66, 3)));
    assert_eq!(session.next_outbound(&mut state), Forward::Wait);
    assert!(session.is_open());
}

#[test]
fn session_ends_on_close_and_releases_its_queue() {
    let mut state = AppState::new(100);
    let (mut session, _) = SubscriberSession::attach(&mut state).unwrap();
    let (mut other, _) = SubscriberSession::attach(&mut state).unwrap();
    assert_eq!(session.on_inbound(Inbound::Pong), Reply::Nothing);
    assert!(session.is_open());
    assert_eq!(session.on_inbound(Inbound::Close), Reply::Stop);
    assert!(!session.is_open());
    session.release(&mut state);
    assert!(!state.is_attached(session.id()));
    assert!(state.is_attached(other.id()));
    assert_eq!(state.publish(sample(70, 1)), 1);
    assert_eq!(session.next_outbound(&mut state), Forward::Stop);
    assert_eq!(other.next_outbound(&mut state), Forward::Deliver(sample(70, 1)));
    assert_eq!(session.on_inbound(Inbound::Text("ping".to_string())), Reply::Stop);
}

#[test]
fn session_ends_when_sending_fails() {
    let mut state = AppState::new(100);
    let (mut session, _) = SubscriberSession::attach(&mut state).unwrap();
    state.publish(sample(70, 1));
    session.on_send_failed();
    assert!(!session.is_open());
    assert_eq!(session.next_outbound(&mut state), Forward::Stop);
}

#[test]
fn session_of_slow_subscriber_is_stopped() {
    let mut state = AppState::new(1);
    let (mut session, _) = SubscriberSession::attach(&mut state).unwrap();
    state.publish(sample(70, 1));
    state.publish(sample(71, 2));
    assert_eq!(session.next_outbound(&mut state), Forward::Stop);
    assert!(!session.is_open());
}

#[test]
fn session_answers_liveness_requests_while_open() {
    let mut state = AppState::new(4);
    let (mut session, _) = SubscriberSession::attach(&mut state).unwrap();
    assert_eq!(session.on_inbound(Inbound::Ping(vec![9])), Reply::Pong(vec![9]));
    assert_eq!(session.on_inbound(Inbound::Text("ping".to_string())), Reply::Text("pong".to_string()));
    assert_eq!(session.on_inbound(Inbound::Text("hello".to_string())), Reply::Nothing);
    assert!(session.is_open());
    assert_eq!(session.on_inbound(Inbound::Broken), Reply::Stop);
    assert!(!session.is_open());
}
