//! The process-wide registry: a mapping from user identity to that user's
//! channel, with lazy channel creation on first subscribe and a publish
//! operation that is a no-op for identities nobody ever subscribed to.

use vstd::prelude::*;
use vstd::hash_map::HashMapWithView;
use crate::channel::{chan_base, Channel, RecvOutcome};
use crate::event::AppEvent;

verus! {

broadcast use vstd::std_specs::hash::group_hash_axioms;

/// One client's attachment to a user's channel: the identity it subscribed
/// for and a cursor into that user's publish history.
pub struct Subscription {
    user_id: u64,
    cursor: usize,
}

impl Subscription {
    /// The user identity this subscription is bound to.
    pub closed spec fn user(self) -> u64 {
        self.user_id
    }

    /// Position in the user's publish history of the next event to observe.
    pub closed spec fn cursor(self) -> nat {
        self.cursor as nat
    }

    /// The subscription points into a channel that the registry holds.
    pub open spec fn attached(self, reg: Registry) -> bool {
        &&& reg.histories().contains_key(self.user())
        &&& self.cursor() <= reg.histories()[self.user()].len()
    }
}

/// Registry state after a subscribe for `user_id`: an absent channel is
/// created empty, an existing one is reused untouched.
pub open spec fn spec_subscribe(m: Map<u64, Seq<AppEvent>>, user_id: u64) -> Map<
    u64,
    Seq<AppEvent>,
> {
    if m.contains_key(user_id) {
        m
    } else {
        m.insert(user_id, Seq::empty())
    }
}

/// Registry state after a publish to `user_id`: the event is appended to the
/// user's history if a channel exists, and nothing happens otherwise.
pub open spec fn spec_publish(
    m: Map<u64, Seq<AppEvent>>,
    user_id: u64,
    event: AppEvent,
) -> Map<u64, Seq<AppEvent>> {
    if m.contains_key(user_id) {
        m.insert(user_id, m[user_id].push(event))
    } else {
        m
    }
}

/// The process-wide mapping from user identity to per-user channel.
pub struct Registry {
    channels: HashMapWithView<u64, Channel>,
}

impl Registry {
    /// Every channel held by the registry is well formed.
    pub closed spec fn wf(self) -> bool {
        forall|u: u64| #[trigger]
            self.channels@.contains_key(u) ==> self.channels@[u].wf()
    }

    /// The full publish history of every user that has a channel.
    pub closed spec fn histories(self) -> Map<u64, Seq<AppEvent>> {
        self.channels@.map_values(|ch: Channel| ch.history())
    }

    /// An empty registry: no user has a channel yet.
    pub fn new() -> (reg: Registry)
        ensures
            reg.wf(),
            reg.histories() == Map::<u64, Seq<AppEvent>>::empty(),
    {
        let reg = Registry { channels: HashMapWithView::new() };
        proof {
            assert(reg.histories() =~= Map::<u64, Seq<AppEvent>>::empty());
        }
        reg
    }

    /// Returns a subscription bound to `user_id`'s channel, creating the
    /// channel if absent. The cursor starts at the current end of the
    /// history, so the subscriber observes only events published after it
    /// attached.
    pub fn subscribe(&mut self, user_id: u64) -> (sub: Subscription)
        requires
            old(self).wf(),
        ensures
            final(self).wf(),
            final(self).histories() == spec_subscribe(old(self).histories(), user_id),
            sub.user() == user_id,
            sub.cursor() == final(self).histories()[user_id].len(),
            sub.attached(*final(self)),
    {
        let cursor = match self.channels.get(&user_id) {
            Some(ch) => ch.len(),
            None => {
                self.channels.insert(user_id, Channel::new());
                proof {
                    assert(self.histories() =~= spec_subscribe(old(self).histories(), user_id));
                }
                0
            },
        };
        Subscription { user_id, cursor }
    }

    /// True when one more event can be recorded for `user_id` without
    /// exceeding the machine bound on the history length.
    pub fn can_publish(&self, user_id: u64) -> (r: bool)
        requires
            self.wf(),
        ensures
            r == (self.histories().contains_key(user_id) ==> self.histories()[user_id].len()
                < usize::MAX),
    {
        match self.channels.get(&user_id) {
            Some(ch) => ch.len() < usize::MAX,
            None => true,
        }
    }

    /// Enqueues `event` on `user_id`'s channel if one exists; if no one has
    /// ever subscribed for that user, this is a silent no-op. Never waits on
    /// any subscriber.
    pub fn publish(&mut self, user_id: u64, event: AppEvent)
        requires
            old(self).wf(),
            old(self).histories().contains_key(user_id) ==> old(self).histories()[user_id].len()
                < usize::MAX,
        ensures
            final(self).wf(),
            final(self).histories() == spec_publish(old(self).histories(), user_id, event),
    {
        match self.channels.remove(&user_id) {
            Some(mut ch) => {
                ch.publish(event);
                self.channels.insert(user_id, ch);
                proof {
                    assert(self.channels@ =~= old(self).channels@.insert(user_id, ch));
                    assert(self.histories() =~= spec_publish(
                        old(self).histories(),
                        user_id,
                        event,
                    ));
                }
            },
            None => {
                proof {
                    assert(self.histories() =~= spec_publish(
                        old(self).histories(),
                        user_id,
                        event,
                    ));
                }
            },
        }
    }

    /// One read attempt for a subscription: the next event of its user's
    /// history in publish order, an explicit skip signal when the subscriber
    /// fell behind the channel capacity, or nothing when it is fully caught
    /// up. The cursor never moves backward.
    pub fn recv<'a>(&'a self, sub: &mut Subscription) -> (r: RecvOutcome<'a>)
        requires
            self.wf(),
            old(sub).attached(*self),
        ensures
            final(sub).user() == old(sub).user(),
            final(sub).attached(*self),
            final(sub).cursor() >= old(sub).cursor(),
            ({
                let h = self.histories()[old(sub).user()];
                let c = old(sub).cursor();
                &&& (c >= h.len() ==> (r is Pending && final(sub).cursor() == c))
                &&& (c < chan_base(h.len()) ==> (r is Lagged
                    && final(sub).cursor() == chan_base(h.len())))
                &&& (chan_base(h.len()) <= c < h.len() ==> (
                    r matches RecvOutcome::Received(e)
                    && *e == h[c as int]
                    && final(sub).cursor() == c + 1))
            }),
    {
        match self.channels.get(&sub.user_id) {
            Some(ch) => {
                let (outcome, cursor) = ch.read(sub.cursor);
                sub.cursor = cursor;
                outcome
            },
            None => RecvOutcome::Pending,
        }
    }
}

/// Exactly one channel per user identity: once a subscribe has taken place
/// for an identity, a second subscribe for the same identity changes
/// nothing, so both subscriptions read from the one channel the first call
/// created.
pub proof fn lemma_subscribe_idempotent(m: Map<u64, Seq<AppEvent>>, user_id: u64)
    ensures
        spec_subscribe(spec_subscribe(m, user_id), user_id) == spec_subscribe(m, user_id),
        spec_subscribe(m, user_id).contains_key(user_id),
{
}

/// Publishing to a user identity with no channel is a no-op: the registry
/// is left exactly as it was, so no state from such a publish can ever
/// become visible to a later subscriber.
pub proof fn lemma_publish_without_channel_is_noop(
    m: Map<u64, Seq<AppEvent>>,
    user_id: u64,
    event: AppEvent,
)
    requires
        !m.contains_key(user_id),
    ensures
        spec_publish(m, user_id, event) == m,
{
}

/// A publish to an identity nobody ever subscribed for leaves nothing
/// behind: a subscriber that attaches afterwards finds an empty history and
/// so observes only events published after it attached.
pub proof fn lemma_publish_then_subscribe_blank(
    m: Map<u64, Seq<AppEvent>>,
    user_id: u64,
    event: AppEvent,
)
    requires
        !m.contains_key(user_id),
    ensures
        spec_subscribe(spec_publish(m, user_id, event), user_id)[user_id] == Seq::<
            AppEvent,
        >::empty(),
{
}

} // verus!
