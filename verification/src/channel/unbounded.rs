//! Unbounded queue channel: many producers, a single consumer, unbounded
//! capacity, first-in-first-out order, and a send that never blocks.
//!
//! `UnboundedChan` is the channel's state; its view is the sequence of
//! messages currently queued, oldest first.  Sender handles are counted, the
//! single receiver is tracked by a liveness flag, and every operation is a
//! verified transition: `send` appends (or fails returning the payload once
//! the receiver is gone), `try_recv` removes the oldest message, reports a
//! permanent close once the queue has drained and every sender is gone, and
//! otherwise leaves the channel untouched.

use vstd::prelude::*;

use crate::channel::ChanClosed;

verus! {

/// Outcome of polling the receiving side of a queue channel.
#[derive(Debug, PartialEq, Eq)]
pub enum RecvPoll<T> {
    /// The oldest queued message, now removed from the queue.
    Ready(T),
    /// Nothing queued yet, but senders are still alive; polling again later
    /// may yield a message.  The channel state is untouched.
    Pending,
    /// The queue has drained and every sender has been dropped: no message
    /// will ever arrive again.
    Closed,
}

/// State of an unbounded queue channel.
pub struct UnboundedChan<T> {
    queue: Vec<T>,
    senders: usize,
    receiver_alive: bool,
}

impl<T> View for UnboundedChan<T> {
    type V = Seq<T>;

    /// The messages currently queued, oldest first.
    closed spec fn view(&self) -> Seq<T> {
        self.queue@
    }
}

impl<T> UnboundedChan<T> {
    /// Number of live sender handles.
    pub closed spec fn senders(&self) -> nat {
        self.senders as nat
    }

    /// Whether the single receiver is still alive.
    pub closed spec fn receiver_live(&self) -> bool {
        self.receiver_alive
    }

    /// A fresh channel: empty queue, one sender handle, a live receiver.
    pub fn new() -> (c: Self)
        ensures
            c@ == Seq::<T>::empty(),
            c.senders() == 1,
            c.receiver_live(),
    {
        UnboundedChan { queue: Vec::new(), senders: 1, receiver_alive: true }
    }

    /// Enqueues a message.  Never blocks: it succeeds unless the receiver
    /// has been dropped, in which case the error surrenders the exact
    /// undelivered payload and the channel is left untouched.
    pub fn send(&mut self, item: T) -> (r: Result<(), ChanClosed<T>>)
        ensures
            old(self).receiver_live() ==> {
                &&& r is Ok
                &&& final(self)@ == old(self)@.push(item)
            },
            !old(self).receiver_live() ==> {
                &&& r == Result::<(), ChanClosed<T>>::Err(ChanClosed(item))
                &&& final(self)@ == old(self)@
            },
            final(self).senders() == old(self).senders(),
            final(self).receiver_live() == old(self).receiver_live(),
    {
        if self.receiver_alive {
            self.queue.push(item);
            Ok(())
        } else {
            Err(ChanClosed(item))
        }
    }

    /// Polls the receiving side.  Returns the oldest queued message in
    /// first-in-first-out order; reports `Closed` once the queue has drained
    /// and every sender is gone; otherwise reports `Pending`.  A poll that
    /// yields no message leaves the channel state exactly as it was, so an
    /// abandoned poll can be retried without side effects.
    pub fn try_recv(&mut self) -> (r: RecvPoll<T>)
        ensures
            old(self)@.len() > 0 ==> {
                &&& r == RecvPoll::Ready(old(self)@.first())
                &&& final(self)@ == old(self)@.drop_first()
            },
            old(self)@.len() == 0 && old(self).senders() == 0 ==> {
                &&& r is Closed
                &&& final(self)@ == old(self)@
            },
            old(self)@.len() == 0 && old(self).senders() > 0 ==> {
                &&& r is Pending
                &&& final(self)@ == old(self)@
            },
            final(self).senders() == old(self).senders(),
            final(self).receiver_live() == old(self).receiver_live(),
    {
        if self.queue.len() > 0 {
            let item = self.queue.remove(0);
            assert(self.queue@ =~= old(self).queue@.drop_first());
            RecvPoll::Ready(item)
        } else if self.senders == 0 {
            RecvPoll::Closed
        } else {
            RecvPoll::Pending
        }
    }

    /// Drains the channel, returning every queued message in the order it
    /// was sent: the receive order of a queue channel equals the send order.
    pub fn recv_all(&mut self) -> (r: Vec<T>)
        ensures
            r@ == old(self)@,
            final(self)@ == Seq::<T>::empty(),
            final(self).senders() == old(self).senders(),
            final(self).receiver_live() == old(self).receiver_live(),
    {
        let mut out: Vec<T> = Vec::new();
        while self.queue.len() > 0
            invariant
                out@ + self@ == old(self)@,
                self.senders() == old(self).senders(),
                self.receiver_live() == old(self).receiver_live(),
            decreases self@.len(),
        {
            let item = self.queue.remove(0);
            out.push(item);
        }
        assert(out@ =~= old(self)@);
        assert(self@ =~= Seq::<T>::empty());
        out
    }

    /// Registers one more sender handle.
    pub fn add_sender(&mut self)
        requires
            old(self).senders() < usize::MAX,
        ensures
            final(self)@ == old(self)@,
            final(self).senders() == old(self).senders() + 1,
            final(self).receiver_live() == old(self).receiver_live(),
    {
        self.senders = self.senders + 1;
    }

    /// Unregisters a sender handle.  Once the count reaches zero the
    /// receiver observes the queue draining and then `Closed`.
    pub fn drop_sender(&mut self)
        requires
            old(self).senders() > 0,
        ensures
            final(self)@ == old(self)@,
            final(self).senders() == old(self).senders() - 1,
            final(self).receiver_live() == old(self).receiver_live(),
    {
        self.senders = self.senders - 1;
    }

    /// Drops the single receiver: every later send fails, surrendering its
    /// payload.  Messages already queued are discarded.
    pub fn drop_receiver(&mut self)
        ensures
            final(self)@ == Seq::<T>::empty(),
            final(self).senders() == old(self).senders(),
            !final(self).receiver_live(),
    {
        self.receiver_alive = false;
        self.queue = Vec::new();
    }
}

/// Builder for unbounded queue channels, suitable for registration in the
/// dependency-resolution container.
#[derive(Debug, Clone, Copy)]
pub struct UnboundedChannelBuilder;

impl UnboundedChannelBuilder {
    /// Builds a fresh, empty channel with one sender and a live receiver.
    pub fn chan<T>(&self) -> (c: UnboundedChan<T>)
        ensures
            c@ == Seq::<T>::empty(),
            c.senders() == 1,
            c.receiver_live(),
    {
        UnboundedChan::new()
    }
}

/// The sequence a receiver observes when it drains a queue holding `q`:
/// each step removes the oldest message, exactly as `try_recv` does.
pub open spec fn drained<T>(q: Seq<T>) -> Seq<T>
    decreases q.len(),
{
    if q.len() == 0 {
        Seq::empty()
    } else {
        seq![q.first()] + drained(q.drop_first())
    }
}

/// First-in-first-out law: for any sequence of messages sent on a fresh
/// queue channel, draining the channel observes exactly that sequence —
/// receive order equals send order.
pub proof fn lemma_unbounded_fifo<T>(msgs: Seq<T>)
    ensures
        drained(msgs) == msgs,
    decreases msgs.len(),
{
    if msgs.len() == 0 {
        assert(drained(msgs) =~= msgs);
    } else {
        lemma_unbounded_fifo(msgs.drop_first());
        assert(drained(msgs) =~= msgs);
    }
}

} // verus!
