//! The stream adapter: turns one subscription into outbound wire frames.
//! Event frames carry the tag's label and the serialized payload; heartbeat
//! frames carry a fixed sentinel payload and no label.

use vstd::prelude::*;
use crate::channel::{chan_base, RecvOutcome};
use crate::event::{event_label, spec_event_label, AppEvent};
use crate::json::{event_json, spec_event_json};
use crate::registry::{Registry, Subscription};

verus! {

/// One unit of the outbound push protocol: an event frame (label and
/// payload) or a heartbeat (sentinel payload only).
pub struct Frame {
    pub label: Option<String>,
    pub payload: String,
}

/// `f` is the wire frame of event `e`: labeled with the tag's label and
/// carrying exactly the serialized payload.
pub open spec fn spec_event_frame(e: AppEvent, f: Frame) -> bool {
    &&& (f.label matches Some(l) && l@ == spec_event_label(e))
    &&& f.payload@ == spec_event_json(e)
}

/// `f` is a heartbeat frame: no event-kind label, the fixed sentinel text.
pub open spec fn spec_heartbeat_frame(f: Frame) -> bool {
    &&& f.label is None
    &&& f.payload@ == "keep-alive-text"@
}

/// Builds the wire frame for one received event.
pub fn frame_for_event(event: &AppEvent) -> (f: Frame)
    ensures
        spec_event_frame(*event, f),
{
    Frame { label: Some(String::from_str(event_label(event))), payload: event_json(event) }
}

/// Builds a heartbeat frame; it never carries an event-kind label.
pub fn heartbeat_frame() -> (f: Frame)
    ensures
        spec_heartbeat_frame(f),
        f.label is None,
{
    Frame { label: None, payload: String::from_str("keep-alive-text") }
}

/// One step of a client's outbound stream: reads the subscription once and
/// produces the frame for the next event in publish order, or nothing when
/// the subscriber is caught up or was signaled a skip (the gap itself gets
/// no frame; the cursor then rests on the oldest retained event).
pub fn next_frame(reg: &Registry, sub: &mut Subscription) -> (r: Option<Frame>)
    requires
        reg.wf(),
        old(sub).attached(*reg),
    ensures
        final(sub).user() == old(sub).user(),
        final(sub).attached(*reg),
        final(sub).cursor() >= old(sub).cursor(),
        ({
            let h = reg.histories()[old(sub).user()];
            let c = old(sub).cursor();
            &&& (chan_base(h.len()) <= c < h.len() ==> (r matches Some(f) && spec_event_frame(
                h[c as int],
                f,
            ) && final(sub).cursor() == c + 1))
            &&& (c >= h.len() ==> (r is None && final(sub).cursor() == c))
            &&& (c < chan_base(h.len()) ==> (r is None && final(sub).cursor() == chan_base(
                h.len(),
            )))
        }),
{
    match reg.recv(sub) {
        RecvOutcome::Received(event) => Some(frame_for_event(event)),
        RecvOutcome::Lagged => None,
        RecvOutcome::Pending => None,
    }
}

/// One wake of the per-connection loop: its two wake sources are the
/// arrival of events on the subscription and the heartbeat tick.
pub enum Wake {
    EventReady,
    HeartbeatTick,
}

/// One decision of the per-connection loop, for one wake. Woken by the
/// channel, it forwards the next event's frame as `next_frame` does; on a
/// heartbeat tick it always produces a heartbeat frame, whether or not any
/// event was published in the interval, and that frame never carries an
/// event-kind label.
pub fn adapter_step(reg: &Registry, sub: &mut Subscription, wake: Wake) -> (r: Option<Frame>)
    requires
        reg.wf(),
        old(sub).attached(*reg),
    ensures
        final(sub).user() == old(sub).user(),
        final(sub).attached(*reg),
        final(sub).cursor() >= old(sub).cursor(),
        wake is HeartbeatTick ==> (r matches Some(f) && spec_heartbeat_frame(f)
            && final(sub).cursor() == old(sub).cursor()),
        wake is EventReady ==> ({
            let h = reg.histories()[old(sub).user()];
            let c = old(sub).cursor();
            &&& (chan_base(h.len()) <= c < h.len() ==> (r matches Some(f) && spec_event_frame(
                h[c as int],
                f,
            ) && final(sub).cursor() == c + 1))
            &&& (c >= h.len() ==> (r is None && final(sub).cursor() == c))
            &&& (c < chan_base(h.len()) ==> (r is None && final(sub).cursor() == chan_base(
                h.len(),
            )))
        }),
{
    match wake {
        Wake::EventReady => next_frame(reg, sub),
        Wake::HeartbeatTick => Some(heartbeat_frame()),
    }
}

/// The tag-to-label mapping is injective: equal labels mean equal tags, so
/// an event frame's label identifies its tag and no label outside the
/// closed set is ever produced.
pub proof fn lemma_event_labels_distinct(e1: AppEvent, e2: AppEvent)
    requires
        spec_event_label(e1) == spec_event_label(e2),
    ensures
        e1 is NewChat <==> e2 is NewChat,
        e1 is AddToChat <==> e2 is AddToChat,
        e1 is UpdateChatName <==> e2 is UpdateChatName,
        e1 is RemoveFromChat <==> e2 is RemoveFromChat,
        e1 is NewMessage <==> e2 is NewMessage,
{
    reveal_strlit("NewChat");
    reveal_strlit("AddToChat");
    reveal_strlit("UpdateChatName");
    reveal_strlit("RemoveFromChat");
    reveal_strlit("NewMessage");
    assert("NewChat"@.len() == 7);
    assert("AddToChat"@.len() == 9);
    assert("UpdateChatName"@.len() == 14);
    assert("RemoveFromChat"@.len() == 14);
    assert("NewMessage"@.len() == 10);
    assert("UpdateChatName"@[0] == 'U');
    assert("RemoveFromChat"@[0] == 'R');
    assert("UpdateChatName"@ != "RemoveFromChat"@);
}

/// A heartbeat frame is never mistaken for an event frame: every event
/// frame carries a label and a heartbeat never does.
pub proof fn lemma_heartbeat_unlabeled(e: AppEvent, event_frame: Frame, heartbeat: Frame)
    requires
        spec_event_frame(e, event_frame),
        spec_heartbeat_frame(heartbeat),
    ensures
        event_frame.label is Some,
        heartbeat.label is None,
        event_frame != heartbeat,
{
}

} // verus!
