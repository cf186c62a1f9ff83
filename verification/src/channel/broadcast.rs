//! Broadcast channel: one or more producers, many independently-advancing
//! consumers, a bounded ring of retained messages, and a lag signal for
//! consumers that fall behind instead of silent data loss.
//!
//! `BroadcastChan` is the shared state.  Its model is the full history of
//! messages ever sent; the ring retains only the most recent `capacity` of
//! them.  Each subscription is a `BroadcastCursor`: an independent position
//! in the history, starting at the tail at subscription time, so a receiver
//! sees exactly the messages sent after it subscribed, in send order.  A
//! receiver whose cursor has been overwritten is told how many messages it
//! skipped and repositioned to the oldest retained message; it stays usable.

use vstd::prelude::*;

use crate::channel::{ChanClosed, Dup};

verus! {

/// Number of retained messages when no capacity is given at creation.
pub const DEFAULT_CAPACITY: usize = 1024;

/// A broadcast receiver's state when production has outpaced its
/// consumption beyond the ring capacity: the count of skipped messages.
#[derive(Debug, Clone, Copy, PartialEq, Eq, Structural)]
pub struct Lagged(pub usize);

/// Outcome of polling a broadcast subscription.
#[derive(Debug, PartialEq, Eq)]
pub enum BroadcastPoll<E> {
    /// The next message after the cursor, which has now advanced past it.
    Ready(E),
    /// The cursor is at the tail and senders are still alive; polling again
    /// later may yield a message.  Nothing is changed.
    Pending,
    /// The cursor is at the tail and every sender has been dropped: the
    /// stream has ended.
    Closed,
    /// The cursor fell behind the ring: the count says how many messages
    /// were skipped, and the cursor now rests on the oldest retained
    /// message, so the next poll continues from there.
    Lagged(Lagged),
}

/// An independent subscription into a broadcast channel: a cursor over the
/// channel's message history.
#[derive(Debug, Clone, Copy, PartialEq, Eq, Structural)]
pub struct BroadcastCursor {
    pos: usize,
}

impl BroadcastCursor {
    /// The index into the channel history of the next message this
    /// subscription will observe.
    pub closed spec fn position(&self) -> nat {
        self.pos as nat
    }
}

/// Shared state of a broadcast channel.
pub struct BroadcastChan<E> {
    buffer: Vec<E>,
    capacity: usize,
    base: usize,
    receivers: usize,
    senders: usize,
    history: Ghost<Seq<E>>,
}

impl<E> BroadcastChan<E> {
    /// Every message ever sent on the channel, in send order.
    pub closed spec fn history(&self) -> Seq<E> {
        self.history@
    }

    /// Ring capacity chosen at creation.
    pub closed spec fn capacity(&self) -> nat {
        self.capacity as nat
    }

    /// Index into the history of the oldest message still retained by the
    /// ring; everything before it has been overwritten.
    pub closed spec fn first_retained(&self) -> nat {
        self.base as nat
    }

    /// Number of live subscriptions.
    pub closed spec fn receivers(&self) -> nat {
        self.receivers as nat
    }

    /// Number of live sender handles.
    pub closed spec fn senders(&self) -> nat {
        self.senders as nat
    }

    /// Internal consistency: the ring holds exactly the most recent
    /// messages of the history, no more than the capacity of them, and
    /// once it has overwritten anything it stays full.
    pub closed spec fn wf(&self) -> bool {
        &&& self.capacity > 0
        &&& self.buffer@.len() <= self.capacity
        &&& self.base + self.buffer@.len() == self.history@.len()
        &&& self.history@.len() <= usize::MAX
        &&& (self.base > 0 ==> self.buffer@.len() == self.capacity)
        &&& forall|i: int|
            0 <= i < self.buffer@.len() ==> self.buffer@[i] == self.history@[self.base + i]
    }

    /// A fresh channel with the given ring capacity: no history, no
    /// subscribers, one sender handle.
    pub fn with_capacity(capacity: usize) -> (c: Self)
        requires
            capacity > 0,
        ensures
            c.wf(),
            c.history() == Seq::<E>::empty(),
            c.capacity() == capacity,
            c.first_retained() == 0,
            c.receivers() == 0,
            c.senders() == 1,
    {
        BroadcastChan {
            buffer: Vec::new(),
            capacity,
            base: 0,
            receivers: 0,
            senders: 1,
            history: Ghost(Seq::empty()),
        }
    }

    /// A fresh channel with the documented default capacity.
    pub fn new() -> (c: Self)
        ensures
            c.wf(),
            c.history() == Seq::<E>::empty(),
            c.capacity() == DEFAULT_CAPACITY,
            c.first_retained() == 0,
            c.receivers() == 0,
            c.senders() == 1,
    {
        Self::with_capacity(DEFAULT_CAPACITY)
    }

    /// Creates a new subscription starting at the current tail: it observes
    /// exactly the messages sent after this call, never history.
    pub fn subscribe(&mut self) -> (c: BroadcastCursor)
        requires
            old(self).wf(),
            old(self).receivers() < usize::MAX,
        ensures
            final(self).wf(),
            c.position() == old(self).history().len(),
            final(self).history() == old(self).history(),
            final(self).capacity() == old(self).capacity(),
            final(self).first_retained() == old(self).first_retained(),
            final(self).receivers() == old(self).receivers() + 1,
            final(self).senders() == old(self).senders(),
    {
        self.receivers = self.receivers + 1;
        BroadcastCursor { pos: self.buffer.len() + self.base }
    }

    /// Ends one subscription.  The cursor it used is dead afterwards.
    pub fn unsubscribe(&mut self)
        requires
            old(self).wf(),
            old(self).receivers() > 0,
        ensures
            final(self).wf(),
            final(self).history() == old(self).history(),
            final(self).capacity() == old(self).capacity(),
            final(self).first_retained() == old(self).first_retained(),
            final(self).receivers() == old(self).receivers() - 1,
            final(self).senders() == old(self).senders(),
    {
        self.receivers = self.receivers - 1;
    }

    /// Registers one more sender handle.
    pub fn add_sender(&mut self)
        requires
            old(self).wf(),
            old(self).senders() < usize::MAX,
        ensures
            final(self).wf(),
            final(self).history() == old(self).history(),
            final(self).capacity() == old(self).capacity(),
            final(self).first_retained() == old(self).first_retained(),
            final(self).receivers() == old(self).receivers(),
            final(self).senders() == old(self).senders() + 1,
    {
        self.senders = self.senders + 1;
    }

    /// Unregisters a sender handle.  Once the count reaches zero, every
    /// subscription that reaches the tail observes the stream ending.
    pub fn drop_sender(&mut self)
        requires
            old(self).wf(),
            old(self).senders() > 0,
        ensures
            final(self).wf(),
            final(self).history() == old(self).history(),
            final(self).capacity() == old(self).capacity(),
            final(self).first_retained() == old(self).first_retained(),
            final(self).receivers() == old(self).receivers(),
            final(self).senders() == old(self).senders() - 1,
    {
        self.senders = self.senders - 1;
    }

    /// Appends a message to the history.  Never blocks: it fails only when
    /// there are zero live subscribers, surrendering the payload and
    /// leaving the channel untouched.  When the ring is full the oldest
    /// retained message is overwritten.
    pub fn send(&mut self, msg: E) -> (r: Result<(), ChanClosed<E>>)
        requires
            old(self).wf(),
            old(self).history().len() < usize::MAX,
        ensures
            final(self).wf(),
            old(self).receivers() == 0 ==> {
                &&& r == Result::<(), ChanClosed<E>>::Err(ChanClosed(msg))
                &&& final(self).history() == old(self).history()
                &&& final(self).first_retained() == old(self).first_retained()
            },
            old(self).receivers() > 0 ==> {
                &&& r is Ok
                &&& final(self).history() == old(self).history().push(msg)
                &&& final(self).first_retained() == if old(self).history().len()
                    - old(self).first_retained() == old(self).capacity() {
                    old(self).first_retained() + 1
                } else {
                    old(self).first_retained()
                }
            },
            final(self).capacity() == old(self).capacity(),
            final(self).receivers() == old(self).receivers(),
            final(self).senders() == old(self).senders(),
    {
        if self.receivers == 0 {
            return Err(ChanClosed(msg));
        }
        let ghost h = self.history@.push(msg);
        if self.buffer.len() == self.capacity {
            self.buffer.remove(0);
            self.base = self.base + 1;
        }
        self.buffer.push(msg);
        self.history = Ghost(h);
        assert forall|i: int| 0 <= i < self.buffer@.len() implies self.buffer@[i] == self.history@[
            self.base + i
        ] by {}
        Ok(())
    }
}

impl<E: Dup> BroadcastChan<E> {
    /// Polls one subscription.  Returns the next message after the cursor
    /// (its own copy, equal to the one sent), in send order; reports the
    /// stream's end once the cursor is at the tail and every sender is
    /// gone; reports how far the cursor lagged if the ring has overwritten
    /// it, repositioning it to the oldest retained message; and otherwise
    /// leaves everything untouched, so an abandoned poll can be retried
    /// without side effects.  The channel state itself is never changed.
    pub fn recv(&self, c: &mut BroadcastCursor) -> (r: BroadcastPoll<E>)
        requires
            self.wf(),
            old(c).position() <= self.history().len(),
        ensures
            old(c).position() < self.first_retained() ==> {
                &&& r == BroadcastPoll::<E>::Lagged(
                    Lagged((self.first_retained() - old(c).position()) as usize),
                )
                &&& final(c).position() == self.first_retained()
                &&& self.first_retained() < self.history().len()
            },
            self.first_retained() <= old(c).position() < self.history().len() ==> {
                &&& r == BroadcastPoll::Ready(self.history()[old(c).position() as int])
                &&& final(c).position() == old(c).position() + 1
            },
            old(c).position() == self.history().len() ==> {
                &&& *final(c) == *old(c)
                &&& if self.senders() == 0 {
                    r is Closed
                } else {
                    r is Pending
                }
            },
    {
        if c.pos < self.base {
            let skipped = self.base - c.pos;
            c.pos = self.base;
            BroadcastPoll::Lagged(Lagged(skipped))
        } else if c.pos < self.base + self.buffer.len() {
            let item = self.buffer[c.pos - self.base].dup();
            c.pos = c.pos + 1;
            BroadcastPoll::Ready(item)
        } else if self.senders == 0 {
            BroadcastPoll::Closed
        } else {
            BroadcastPoll::Pending
        }
    }

    /// Drains every message currently deliverable to one subscription, in
    /// send order: exactly the history from the cursor's position to the
    /// tail.  Afterwards the cursor rests at the tail.
    pub fn recv_available(&self, c: &mut BroadcastCursor) -> (r: Vec<E>)
        requires
            self.wf(),
            self.first_retained() <= old(c).position() <= self.history().len(),
        ensures
            r@ == self.history().subrange(
                old(c).position() as int,
                self.history().len() as int,
            ),
            final(c).position() == self.history().len(),
    {
        let mut out: Vec<E> = Vec::new();
        let end = self.base + self.buffer.len();
        while c.pos < end
            invariant
                self.wf(),
                end == self.history().len(),
                self.first_retained() <= c.position() <= self.history().len(),
                out@ == self.history().subrange(old(c).position() as int, c.position() as int),
                old(c).position() <= c.position(),
            decreases end - c.pos,
        {
            let item = self.buffer[c.pos - self.base].dup();
            out.push(item);
            c.pos = c.pos + 1;
            assert(out@ =~= self.history().subrange(
                old(c).position() as int,
                c.position() as int,
            ));
        }
        assert(out@ =~= self.history().subrange(
            old(c).position() as int,
            self.history().len() as int,
        ));
        out
    }
}

/// Builder for broadcast channels, suitable for registration in the
/// dependency-resolution container.
#[derive(Debug, Clone, Copy)]
pub struct BroadcastChanBuilder;

impl BroadcastChanBuilder {
    pub fn new() -> (b: Self) {
        BroadcastChanBuilder
    }

    /// Builds a channel with the documented default ring capacity.
    pub fn chan<E>(&self) -> (c: BroadcastChan<E>)
        ensures
            c.wf(),
            c.history() == Seq::<E>::empty(),
            c.capacity() == DEFAULT_CAPACITY,
            c.first_retained() == 0,
            c.receivers() == 0,
            c.senders() == 1,
    {
        BroadcastChan::new()
    }

    /// Builds a channel with the given ring capacity.
    pub fn chan_with_capacity<E>(&self, capacity: usize) -> (c: BroadcastChan<E>)
        requires
            capacity > 0,
        ensures
            c.wf(),
            c.history() == Seq::<E>::empty(),
            c.capacity() == capacity,
            c.first_retained() == 0,
            c.receivers() == 0,
            c.senders() == 1,
    {
        BroadcastChan::with_capacity(capacity)
    }
}

/// Fan-out law: two subscriptions taken before any send observe the sent
/// messages at the same ranks, in the same order, regardless of how far
/// each has consumed — the `k`-th message either observes is the `k`-th
/// message sent.
pub proof fn lemma_broadcast_fanout<E>(h: Seq<E>, n1: int, n2: int, k: int)
    requires
        0 <= k < n1 <= h.len(),
        k < n2 <= h.len(),
    ensures
        h.subrange(0, n1)[k] == h[k],
        h.subrange(0, n2)[k] == h[k],
{
}

} // verus!
