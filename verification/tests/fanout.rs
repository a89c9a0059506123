use chat_notify::adapter::{adapter_step, heartbeat_frame, next_frame, Wake};
use chat_notify::channel::RecvOutcome;
use chat_notify::event::{AppEvent, Message};
use chat_notify::registry::Registry;

fn message_event(id: i64, chat_id: i64, body: &str) -> AppEvent {
    AppEvent::NewMessage(Message { id, chat_id, body: body.to_string() })
}

#[test]
fn subscriber_sees_new_message_frame() {
    let mut reg = Registry::new();
    let mut sub = reg.subscribe(42);
    reg.publish(42, message_event(7, 3, "hi"));

    let frame = next_frame(&reg, &mut sub).expect("one frame");
    assert_eq!(frame.label.as_deref(), Some("NewMessage"));
    let value: serde_json::Value = serde_json::from_str(&frame.payload).expect("valid json");
    assert_eq!(value.get("id").and_then(|v| v.as_i64()), Some(7));
    assert_eq!(value.get("chat_id").and_then(|v| v.as_i64()), Some(3));
    assert_eq!(value.get("body").and_then(|v| v.as_str()), Some("hi"));

    assert!(next_frame(&reg, &mut sub).is_none());
}

#[test]
fn events_arrive_in_publish_order() {
    let mut reg = Registry::new();
    let mut sub = reg.subscribe(5);
    reg.publish(5, message_event(1, 9, "first"));
    reg.publish(5, message_event(2, 9, "second"));

    let f1 = next_frame(&reg, &mut sub).expect("first frame");
    let f2 = next_frame(&reg, &mut sub).expect("second frame");
    assert!(f1.payload.contains("first"));
    assert!(f2.payload.contains("second"));
    assert!(next_frame(&reg, &mut sub).is_none());
}

#[test]
fn publish_without_subscriber_is_noop() {
    let mut reg = Registry::new();
    reg.publish(99, message_event(1, 1, "lost"));

    let mut sub = reg.subscribe(99);
    assert!(next_frame(&reg, &mut sub).is_none());

    reg.publish(99, message_event(2, 1, "kept"));
    let frame = next_frame(&reg, &mut sub).expect("only the later event");
    assert!(frame.payload.contains("kept"));
    assert!(next_frame(&reg, &mut sub).is_none());
}

#[test]
fn late_subscriber_sees_only_later_events() {
    let mut reg = Registry::new();
    let mut early = reg.subscribe(8);
    reg.publish(8, message_event(1, 2, "before"));

    let mut late = reg.subscribe(8);
    reg.publish(8, message_event(2, 2, "after"));

    assert!(next_frame(&reg, &mut early).unwrap().payload.contains("before"));
    assert!(next_frame(&reg, &mut early).unwrap().payload.contains("after"));
    let only = next_frame(&reg, &mut late).expect("one frame for the late subscriber");
    assert!(only.payload.contains("after"));
    assert!(next_frame(&reg, &mut late).is_none());
}

#[test]
fn two_subscriptions_share_one_channel() {
    let mut reg = Registry::new();
    let mut a = reg.subscribe(42);
    let mut b = reg.subscribe(42);
    reg.publish(42, message_event(10, 4, "both"));

    let fa = next_frame(&reg, &mut a).expect("copy for a");
    let fb = next_frame(&reg, &mut b).expect("copy for b");
    assert_eq!(fa.label, fb.label);
    assert_eq!(fa.payload, fb.payload);
    assert!(next_frame(&reg, &mut a).is_none());
    assert!(next_frame(&reg, &mut b).is_none());
}

#[test]
fn lagging_subscriber_skips_to_oldest_retained() {
    let mut reg = Registry::new();
    let mut sub = reg.subscribe(1);
    for i in 0..300 {
        assert!(reg.can_publish(1));
        reg.publish(1, message_event(i, 1, "x"));
    }

    // 300 events were published into a capacity of 256: the oldest retained
    // event is number 44, and the subscriber is first told it was skipped.
    match reg.recv(&mut sub) {
        RecvOutcome::Lagged => {},
        _ => panic!("expected an explicit skip signal"),
    }
    match reg.recv(&mut sub) {
        RecvOutcome::Received(AppEvent::NewMessage(m)) => assert_eq!(m.id, 44),
        _ => panic!("expected the oldest retained event"),
    }
    // No duplication and no corruption: ids continue strictly in order.
    for expected in 45..300 {
        match reg.recv(&mut sub) {
            RecvOutcome::Received(AppEvent::NewMessage(m)) => assert_eq!(m.id, expected),
            _ => panic!("expected event {expected}"),
        }
    }
    match reg.recv(&mut sub) {
        RecvOutcome::Pending => {},
        _ => panic!("expected the subscriber to be caught up"),
    }
}

#[test]
fn heartbeat_frame_is_unlabeled_sentinel() {
    let frame = heartbeat_frame();
    assert!(frame.label.is_none());
    assert_eq!(frame.payload, "keep-alive-text");
}

#[test]
fn heartbeat_tick_fires_with_zero_events() {
    let mut reg = Registry::new();
    let mut sub = reg.subscribe(13);

    // No event was published in the interval; every tick still yields an
    // unlabeled heartbeat, and the subscription is left where it was.
    for _ in 0..3 {
        let hb = adapter_step(&reg, &mut sub, Wake::HeartbeatTick).expect("heartbeat");
        assert!(hb.label.is_none());
        assert_eq!(hb.payload, "keep-alive-text");
    }
    assert!(adapter_step(&reg, &mut sub, Wake::EventReady).is_none());
}
