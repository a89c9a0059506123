//! The per-user broadcast conduit: a bounded buffer over an ever-growing
//! publish history. Every subscriber owns a cursor into the history; a
//! subscriber that falls more than the capacity behind the publish position
//! is signaled a skip and resumes at the oldest event still retained.

use vstd::prelude::*;
use crate::event::AppEvent;
use crate::CHANNEL_CAPACITY;

verus! {

/// Index of the oldest event still retained by a channel whose full history
/// has length `len`: everything earlier has been dropped for lagging readers.
pub open spec fn chan_base(len: nat) -> nat {
    if len <= CHANNEL_CAPACITY {
        0
    } else {
        (len - CHANNEL_CAPACITY) as nat
    }
}

/// One read attempt by a subscriber.
pub enum RecvOutcome<'a> {
    /// The next event in publish order.
    Received(&'a AppEvent),
    /// The subscriber fell behind the capacity; events were skipped and the
    /// cursor now rests on the oldest event still retained.
    Lagged,
    /// Nothing has been published past the subscriber's cursor.
    Pending,
}

/// A bounded multi-subscriber conduit. The ghost `hist` is the full sequence
/// of events ever published, in publish order; the buffer retains its last
/// `CHANNEL_CAPACITY` entries.
pub struct Channel {
    buf: Vec<AppEvent>,
    count: usize,
    hist: Ghost<Seq<AppEvent>>,
}

impl Channel {
    /// Full publish history of this channel, in publish order.
    pub closed spec fn history(self) -> Seq<AppEvent> {
        self.hist@
    }

    /// The buffer holds exactly the retained suffix of the history.
    pub closed spec fn wf(self) -> bool {
        &&& self.count == self.hist@.len()
        &&& self.buf@.len() == self.hist@.len() - chan_base(self.hist@.len())
        &&& self.buf@ == self.hist@.subrange(
            chan_base(self.hist@.len()) as int,
            self.hist@.len() as int,
        )
    }

    /// A fresh channel with an empty history.
    pub fn new() -> (ch: Channel)
        ensures
            ch.wf(),
            ch.history() == Seq::<AppEvent>::empty(),
    {
        let ch = Channel { buf: Vec::new(), count: 0, hist: Ghost(Seq::empty()) };
        proof {
            assert(ch.buf@ =~= ch.hist@.subrange(
                chan_base(ch.hist@.len()) as int,
                ch.hist@.len() as int,
            ));
        }
        ch
    }

    /// The publish position: how many events were ever published here.
    pub fn len(&self) -> (n: usize)
        requires
            self.wf(),
        ensures
            n == self.history().len(),
    {
        self.count
    }

    /// Appends an event to the history. Never blocks on readers: when the
    /// buffer is full the oldest retained event is dropped.
    pub fn publish(&mut self, event: AppEvent)
        requires
            old(self).wf(),
            old(self).history().len() < usize::MAX,
        ensures
            final(self).wf(),
            final(self).history() == old(self).history().push(event),
    {
        if self.buf.len() == CHANNEL_CAPACITY {
            self.buf.remove(0);
        }
        self.buf.push(event);
        self.count = self.count + 1;
        proof {
            self.hist@ = self.hist@.push(event);
            assert(self.buf@ =~= self.hist@.subrange(
                chan_base(self.hist@.len()) as int,
                self.hist@.len() as int,
            ));
        }
    }

    /// One read attempt from position `cursor` of the history. Returns the
    /// outcome and the cursor to read from next:
    /// - past the history: nothing yet, the cursor stands;
    /// - before the oldest retained event: an explicit skip signal, and the
    ///   cursor jumps to the oldest retained event;
    /// - otherwise: exactly the event at the cursor, and the cursor advances
    ///   by one.
    pub fn read<'a>(&'a self, cursor: usize) -> (r: (RecvOutcome<'a>, usize))
        requires
            self.wf(),
        ensures
            cursor >= self.history().len() ==> (r.0 is Pending && r.1 == cursor),
            cursor < chan_base(self.history().len()) ==> (r.0 is Lagged
                && r.1 == chan_base(self.history().len())),
            chan_base(self.history().len()) <= cursor < self.history().len() ==> (
                r.0 matches RecvOutcome::Received(e) && *e == self.history()[cursor as int]
                && r.1 == cursor + 1),
            r.1 >= cursor,
            cursor <= self.history().len() ==> r.1 <= self.history().len(),
    {
        let base = self.count - self.buf.len();
        if cursor >= self.count {
            (RecvOutcome::Pending, cursor)
        } else if cursor < base {
            (RecvOutcome::Lagged, base)
        } else {
            let event = &self.buf[cursor - base];
            (RecvOutcome::Received(event), cursor + 1)
        }
    }
}

/// Per-user ordering: any subscriber observes events at strictly increasing
/// positions of its user's publish history, so of two events published in
/// order, the earlier one is never observed after the later one. Here `h1`
/// is the history at the first read and `h2` the history at a later read
/// (publishing only appends), `c1` and `c2` the cursors the two reads were
/// made from, and `e1`, `e2` the events they returned.
pub proof fn lemma_per_user_order(
    h1: Seq<AppEvent>,
    h2: Seq<AppEvent>,
    c1: nat,
    c2: nat,
    e1: AppEvent,
    e2: AppEvent,
)
    requires
        h1.is_prefix_of(h2),
        c1 < h1.len(),
        e1 == h1[c1 as int],
        c2 >= c1 + 1,
        c2 < h2.len(),
        e2 == h2[c2 as int],
    ensures
        c2 > c1,
        h2[c1 as int] == e1,
{
    assert(h2[c1 as int] == h1[c1 as int]);
}

/// Bounded staleness: a subscriber that has fallen behind by more than the
/// capacity is signaled a skip and resumes exactly at the oldest event still
/// retained; the retained window always ends at the publish position, so no
/// event is ever observed twice and none is invented.
pub proof fn lemma_lagged_resume(h: Seq<AppEvent>, c: nat)
    requires
        c < chan_base(h.len()),
    ensures
        h.len() > CHANNEL_CAPACITY,
        chan_base(h.len()) == h.len() - CHANNEL_CAPACITY,
        chan_base(h.len()) < h.len(),
        chan_base(h.len()) > c,
{
}

} // verus!
