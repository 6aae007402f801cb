use heart_rate_bridge::distribution::AppState;
use heart_rate_bridge::distribution::Attachment;
use heart_rate_bridge::hub::BroadcastHub;
use heart_rate_bridge::query::no_data_message;
use heart_rate_bridge::query::query;
use heart_rate_bridge::query::QueryReply;
use heart_rate_bridge::reading::HeartRateData;
use heart_rate_bridge::store::ReadingStore;

fn reading(value: u16, timestamp: u64) -> HeartRateData {
    HeartRateData { value, sensor_contact_detected: Some(true), timestamp }
}

#[test]
fn store_starts_empty_and_keeps_only_the_latest() {
    let mut store = ReadingStore::new();
    assert_eq!(store.read(), None);
    store.write(reading(60, 1));
    assert_eq!(store.read(), Some(reading(60, 1)));
    store.write(reading(61, 2));
    assert_eq!(store.read(), Some(reading(61, 2)));
    assert_eq!(store.read(), Some(reading(61, 2)));
}

#[test]
fn query_on_empty_store_is_not_found() {
    let state = AppState::new(100);
    let reply = query(&state);
    assert_eq!(reply, QueryReply::NotFound);
    assert_eq!(reply.status_code(), 404);
    assert_eq!(no_data_message(), "No heart rate data available");
}

#[test]
fn query_returns_the_latest_reading() {
    let mut state = AppState::new(100);
    state.publish(reading(70, 10));
    state.publish(reading(71, 11));
    let reply = query(&state);
    assert_eq!(reply, QueryReply::Found(reading(71, 11)));
    assert_eq!(reply.status_code(), 200);
}

#[test]
fn subscriber_attached_first_receives_everything_in_order() {
    let mut state = AppState::new(100);
    let attachment = state.attach().unwrap();
    assert_eq!(attachment, Attachment { id: 0, snapshot: None });
    let mut n: u16 = 0;
    while n < 100 {
        assert_eq!(state.publish(reading(40 + n, 1000 + n as u64)), 1);
        n += 1;
    }
    let mut n: u16 = 0;
    while n < 100 {
        assert_eq!(state.next_for(attachment.id), Some(reading(40 + n, 1000 + n as u64)));
        n += 1;
    }
    assert_eq!(state.next_for(attachment.id), None);
    assert!(state.is_attached(attachment.id));
}

#[test]
fn taking_and_publishing_may_interleave() {
    let mut state = AppState::new(2);
    let id = state.attach().unwrap().id;
    state.publish(reading(1, 1));
    state.publish(reading(2, 2));
    assert_eq!(state.next_for(id), Some(reading(1, 1)));
    state.publish(reading(3, 3));
    assert_eq!(state.next_for(id), Some(reading(2, 2)));
    assert_eq!(state.next_for(id), Some(reading(3, 3)));
    assert_eq!(state.next_for(id), None);
    state.publish(reading(4, 4));
    assert_eq!(state.next_for(id), Some(reading(4, 4)));
}

#[test]
fn late_subscriber_gets_snapshot_then_what_follows() {
    let mut state = AppState::new(100);
    state.publish(reading(60, 1));
    state.publish(reading(61, 2));
    state.publish(reading(62, 3));
    let attachment = state.attach().unwrap();
    assert_eq!(attachment.snapshot, Some(reading(62, 3)));
    assert_eq!(state.next_for(attachment.id), None);
    state.publish(reading(63, 4));
    state.publish(reading(64, 5));
    assert_eq!(state.next_for(attachment.id), Some(reading(63, 4)));
    assert_eq!(state.next_for(attachment.id), Some(reading(64, 5)));
    assert_eq!(state.next_for(attachment.id), None);
}

#[test]
fn subscriber_before_first_reading_gets_nothing_until_broadcast() {
    let mut state = AppState::new(4);
    let attachment = state.attach().unwrap();
    assert_eq!(attachment.snapshot, None);
    assert_eq!(state.next_for(attachment.id), None);
    state.publish(reading(55, 7));
    assert_eq!(state.next_for(attachment.id), Some(reading(55, 7)));
}

#[test]
fn two_subscribers_receive_identical_readings() {
    let mut state = AppState::new(8);
    let first = state.attach().unwrap().id;
    let second = state.attach().unwrap().id;
    assert_ne!(first, second);
    assert_eq!(state.publish(reading(90, 20)), 2);
    assert_eq!(state.publish(reading(91, 21)), 2);
    let a1 = state.next_for(first);
    let b1 = state.next_for(second);
    let b2 = state.next_for(second);
    let a2 = state.next_for(first);
    assert_eq!(a1, Some(reading(90, 20)));
    assert_eq!(a1, b1);
    assert_eq!(a2, Some(reading(91, 21)));
    assert_eq!(a2, b2);
}

#[test]
fn publishing_to_nobody_drops_the_reading_but_stores_it() {
    let mut state = AppState::new(8);
    assert_eq!(state.publish(reading(77, 1)), 0);
    assert_eq!(state.current(), Some(reading(77, 1)));
    let attachment = state.attach().unwrap();
    assert_eq!(state.next_for(attachment.id), None);
}

#[test]
fn slow_subscriber_is_disconnected_and_others_are_not() {
    let mut state = AppState::new(2);
    let slow = state.attach().unwrap().id;
    let quick = state.attach().unwrap().id;
    assert_eq!(state.publish(reading(1, 1)), 2);
    assert_eq!(state.next_for(quick), Some(reading(1, 1)));
    assert_eq!(state.publish(reading(2, 2)), 2);
    assert_eq!(state.next_for(quick), Some(reading(2, 2)));
    assert_eq!(state.publish(reading(3, 3)), 1);
    assert!(!state.is_attached(slow));
    assert!(state.is_attached(quick));
    assert_eq!(state.next_for(slow), None);
    assert_eq!(state.next_for(quick), Some(reading(3, 3)));
    assert_eq!(state.current(), Some(reading(3, 3)));
}

#[test]
fn detach_releases_only_that_subscriber() {
    let mut state = AppState::new(4);
    let a = state.attach().unwrap().id;
    let b = state.attach().unwrap().id;
    let c = state.attach().unwrap().id;
    state.publish(reading(10, 1));
    assert!(state.detach(b));
    assert!(!state.detach(b));
    assert!(!state.is_attached(b));
    assert_eq!(state.publish(reading(11, 2)), 2);
    assert_eq!(state.next_for(a), Some(reading(10, 1)));
    assert_eq!(state.next_for(a), Some(reading(11, 2)));
    assert_eq!(state.next_for(c), Some(reading(10, 1)));
    assert_eq!(state.next_for(c), Some(reading(11, 2)));
    assert_eq!(state.next_for(b), None);
}

#[test]
fn hub_hands_out_identifiers_in_order_and_never_again() {
    let mut hub = BroadcastHub::new(3);
    assert_eq!(hub.capacity(), 3);
    assert_eq!(hub.subscriber_count(), 0);
    assert_eq!(hub.subscribe(), Some(0));
    assert_eq!(hub.subscribe(), Some(1));
    assert!(hub.unsubscribe(0));
    assert_eq!(hub.subscribe(), Some(2));
    assert_eq!(hub.subscriber_count(), 2);
    assert!(!hub.is_attached(0));
    assert!(hub.is_attached(1));
    assert!(hub.is_attached(2));
    assert!(!hub.is_attached(3));
}

#[test]
fn hub_backlog_counts_waiting_readings() {
    let mut hub = BroadcastHub::new(3);
    let id = hub.subscribe().unwrap();
    assert_eq!(hub.backlog(id), Some(0));
    assert_eq!(hub.backlog(id + 1), None);
    hub.publish(reading(1, 1));
    hub.publish(reading(2, 2));
    assert_eq!(hub.backlog(id), Some(2));
    assert_eq!(hub.receive(id), Some(reading(1, 1)));
    assert_eq!(hub.backlog(id), Some(1));
    hub.publish(reading(3, 3));
    hub.publish(reading(4, 4));
    assert_eq!(hub.backlog(id), Some(3));
    assert_eq!(hub.publish(reading(5, 5)), 0);
    assert_eq!(hub.backlog(id), None);
    assert_eq!(hub.receive(id), None);
}

#[test]
fn hub_without_capacity_disconnects_on_first_publication() {
    let mut hub = BroadcastHub::new(0);
    let id = hub.subscribe().unwrap();
    assert!(hub.is_attached(id));
    assert_eq!(hub.publish(reading(1, 1)), 0);
    assert!(!hub.is_attached(id));
}

#[test]
fn many_subscribers_with_removals_keep_their_own_queues() {
    let mut hub = BroadcastHub::new(2);
    let mut ids: Vec<u64> = Vec::new();
    let mut n: u64 = 0;
    while n < 10 {
        ids.push(hub.subscribe().unwrap());
        n += 1;
    }
    hub.publish(reading(1, 1));
    hub.publish(reading(2, 2));
    for id in ids.iter() {
        if id % 2 == 0 {
            assert_eq!(hub.receive(*id), Some(reading(1, 1)));
        }
    }
    assert_eq!(hub.publish(reading(3, 3)), 5);
    for id in ids.iter() {
        if id % 2 == 0 {
            assert_eq!(hub.receive(*id), Some(reading(2, 2)));
            assert_eq!(hub.receive(*id), Some(reading(3, 3)));
            assert_eq!(hub.receive(*id), None);
        } else {
            assert!(!hub.is_attached(*id));
        }
    }
}
