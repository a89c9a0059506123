//! Domain events pushed to connected clients, with the exhaustive mapping
//! from event tags to wire labels.

use vstd::prelude::*;

verus! {

/// The kind of a chat, derived from its name, size and visibility.
#[derive(Clone, Copy, PartialEq, Eq, Structural, Debug)]
pub enum ChatType {
    Single,
    Group,
    PrivateChannel,
    PublicChannel,
}

/// Snapshot of a chat as carried inside a domain event.
#[derive(Debug)]
pub struct Chat {
    pub id: i64,
    pub ws_id: i64,
    pub name: Option<String>,
    pub chat_type: ChatType,
    pub members: Vec<i64>,
    pub created_at: i64,
}

/// Snapshot of a message as carried inside a domain event.
#[derive(Debug)]
pub struct Message {
    pub id: i64,
    pub chat_id: i64,
    pub body: String,
}

/// An immutable, tagged domain event: exactly one payload per tag.
#[derive(Debug)]
pub enum AppEvent {
    NewChat(Chat),
    AddToChat(Chat),
    UpdateChatName(Chat),
    RemoveFromChat(Chat),
    NewMessage(Message),
}

/// The wire label of an event, determined by its tag alone.
pub open spec fn spec_event_label(event: AppEvent) -> Seq<char> {
    match event {
        AppEvent::NewChat(_) => "NewChat"@,
        AppEvent::AddToChat(_) => "AddToChat"@,
        AppEvent::UpdateChatName(_) => "UpdateChatName"@,
        AppEvent::RemoveFromChat(_) => "RemoveFromChat"@,
        AppEvent::NewMessage(_) => "NewMessage"@,
    }
}

/// Maps an event to its wire label. The match is exhaustive over the closed
/// set of tags, and the label depends on the tag alone.
pub fn event_label(event: &AppEvent) -> (label: &'static str)
    ensures
        label@ == spec_event_label(*event),
{
    match event {
        AppEvent::NewChat(_) => "NewChat",
        AppEvent::AddToChat(_) => "AddToChat",
        AppEvent::UpdateChatName(_) => "UpdateChatName",
        AppEvent::RemoveFromChat(_) => "RemoveFromChat",
        AppEvent::NewMessage(_) => "NewMessage",
    }
}

} // verus!
