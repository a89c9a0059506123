use chat_notify::event::{event_label, AppEvent, Chat, ChatType, Message};
use chat_notify::json::event_json;

fn chat(name: Option<&str>, chat_type: ChatType, members: &[i64]) -> Chat {
    Chat {
        id: 1,
        ws_id: 1,
        name: name.map(|n| n.to_string()),
        chat_type,
        members: members.to_vec(),
        created_at: 1700000000,
    }
}

#[test]
fn event_labels_are_exact() {
    let c = || chat(Some("general"), ChatType::PublicChannel, &[1, 2]);
    let m = Message { id: 1, chat_id: 1, body: "x".to_string() };
    assert_eq!(event_label(&AppEvent::NewChat(c())), "NewChat");
    assert_eq!(event_label(&AppEvent::AddToChat(c())), "AddToChat");
    assert_eq!(event_label(&AppEvent::UpdateChatName(c())), "UpdateChatName");
    assert_eq!(event_label(&AppEvent::RemoveFromChat(c())), "RemoveFromChat");
    assert_eq!(event_label(&AppEvent::NewMessage(m)), "NewMessage");
}

#[test]
fn message_payload_is_exact_json() {
    let event = AppEvent::NewMessage(Message { id: 7, chat_id: 3, body: "hi".to_string() });
    assert_eq!(event_json(&event), "{\"id\":7,\"chat_id\":3,\"body\":\"hi\"}");
}

#[test]
fn negative_ids_encode_with_sign() {
    let event = AppEvent::NewMessage(Message { id: -12, chat_id: i64::MIN, body: "".to_string() });
    assert_eq!(
        event_json(&event),
        "{\"id\":-12,\"chat_id\":-9223372036854775808,\"body\":\"\"}"
    );
}

#[test]
fn chat_payload_is_exact_json() {
    let event = AppEvent::NewChat(chat(Some("general"), ChatType::PublicChannel, &[1, 2, 3]));
    assert_eq!(
        event_json(&event),
        "{\"id\":1,\"ws_id\":1,\"name\":\"general\",\"type\":\"PublicChannel\",\
         \"members\":[1,2,3],\"created_at\":1700000000}"
    );
}

#[test]
fn unnamed_chat_encodes_null_name() {
    let event = AppEvent::NewChat(chat(None, ChatType::Single, &[4, 5]));
    let value: serde_json::Value = serde_json::from_str(&event_json(&event)).expect("valid json");
    assert!(value.get("name").unwrap().is_null());
    assert_eq!(value.get("type").and_then(|v| v.as_str()), Some("Single"));
}

#[test]
fn escaped_body_round_trips() {
    let body = "say \"hi\"\n\tback\\slash \u{1} end";
    let event = AppEvent::NewMessage(Message { id: 1, chat_id: 1, body: body.to_string() });
    let text = event_json(&event);
    let value: serde_json::Value = serde_json::from_str(&text).expect("valid json");
    assert_eq!(value.get("body").and_then(|v| v.as_str()), Some(body));
}

#[test]
fn unicode_body_round_trips() {
    let body = "héllo ☃ wörld";
    let event = AppEvent::NewMessage(Message { id: 2, chat_id: 2, body: body.to_string() });
    let value: serde_json::Value =
        serde_json::from_str(&event_json(&event)).expect("valid json");
    assert_eq!(value.get("body").and_then(|v| v.as_str()), Some(body));
}
