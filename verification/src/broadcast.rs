//! Model of the state-change broadcast: one publisher, any number of
//! independent subscribers.  Publishing appends to the event history and
//! never blocks or fails, whatever the subscribers do.  A subscriber
//! reads the history at its own pace; one that falls further behind than
//! the channel's bound silently resumes from the oldest event still
//! within the bound instead of failing.  The channel is best-effort,
//! at-most-once notification, not an event log.

use vstd::prelude::*;
use crate::song_queue::SseEvent;

verus! {

/// Bound on how far a subscriber may lag before it starts missing events.
pub const BROADCAST_CAPACITY: usize = 10;

/// The publisher side: the history of everything published.
pub struct BroadcastChannel {
    history: Vec<SseEvent>,
    capacity: usize,
}

/// One subscriber's cursor into the history.
pub struct BroadcastSubscriber {
    next: usize,
}

impl View for BroadcastSubscriber {
    type V = int;

    closed spec fn view(&self) -> int {
        self.next as int
    }
}

impl BroadcastChannel {
    pub closed spec fn history(&self) -> Seq<SseEvent> {
        self.history@
    }

    pub closed spec fn capacity(&self) -> nat {
        self.capacity as nat
    }

    pub open spec fn wf(&self) -> bool {
        self.capacity() >= 1
    }

    pub fn new(capacity: usize) -> (c: BroadcastChannel)
        requires
            capacity >= 1,
        ensures
            c.wf(),
            c.history() == Seq::<SseEvent>::empty(),
            c.capacity() == capacity as nat,
    {
        let c = BroadcastChannel { history: Vec::new(), capacity };
        proof {
            assert(c.history() =~= Seq::<SseEvent>::empty());
        }
        c
    }

    /// Publishing appends the event and always succeeds at once: no
    /// subscriber, however slow or absent, blocks or fails the publisher.
    pub fn publish(&mut self, event: SseEvent)
        requires
            old(self).wf(),
        ensures
            final(self).wf(),
            final(self).history() == old(self).history().push(event),
            final(self).capacity() == old(self).capacity(),
    {
        self.history.push(event);
    }

    /// A new subscriber starts at the current end of the history, so it
    /// receives exactly the events published after it subscribed.
    pub fn subscribe(&self) -> (sub: BroadcastSubscriber)
        ensures
            sub@ == self.history().len(),
    {
        BroadcastSubscriber { next: self.history.len() }
    }

    /// One receive step for `sub`: the next event if one is pending, and
    /// `None` when the subscriber has seen everything (it would wait).  A
    /// subscriber that lags beyond the bound skips to the oldest event
    /// still within it and goes on from there.
    pub fn recv<'a>(&'a self, sub: &mut BroadcastSubscriber) -> (r: Option<&'a SseEvent>)
        requires
            self.wf(),
            0 <= old(sub)@ <= self.history().len(),
        ensures
            ({
                let len = self.history().len() as int;
                let cap = self.capacity() as int;
                let start = if len - old(sub)@ > cap { len - cap } else { old(sub)@ };
                match r {
                    Some(e) => start < len && *e == self.history()[start] && final(sub)@ == start
                        + 1,
                    None => old(sub)@ == len && final(sub)@ == old(sub)@,
                }
            }),
    {
        let len = self.history.len();
        if sub.next >= len {
            return None;
        }
        let start = if len - sub.next > self.capacity {
            len - self.capacity
        } else {
            sub.next
        };
        sub.next = start + 1;
        Some(&self.history[start])
    }
}

} // verus!
