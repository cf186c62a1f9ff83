//! Duplex channel: one unbounded queue channel carrying commands from
//! clients to the server, composed with one broadcast channel fanning
//! events from the server out to every client, under a single paired state.
//!
//! The server side enqueue-reads commands and broadcasts events; each
//! client handle is a `DuplexClient`: one command-sender registration plus
//! one event subscription.  A command sent after the server has stopped
//! reading fails with the send-error contract, surrendering the payload;
//! an event sent while zero clients are subscribed fails the same way.

use vstd::prelude::*;

use crate::channel::broadcast::{BroadcastChan, BroadcastCursor, BroadcastPoll};
use crate::channel::unbounded::{RecvPoll, UnboundedChan};
use crate::channel::{ChanClosed, Dup};

verus! {

/// A client handle: the event subscription of one registered client.
/// Each client also counts as one command sender in the paired state.
#[derive(Debug, Clone, Copy, PartialEq, Eq, Structural)]
pub struct DuplexClient {
    events: BroadcastCursor,
}

impl DuplexClient {
    /// Index into the event history of the next event this client will
    /// observe.
    pub closed spec fn position(&self) -> nat {
        self.events.position()
    }
}

impl Dup for DuplexClient {
    fn dup(&self) -> (r: Self)
        ensures
            r == *self,
    {
        *self
    }
}

/// Paired state of a duplex channel: the command queue and the event ring.
pub struct DuplexChan<C, E> {
    commands: UnboundedChan<C>,
    events: BroadcastChan<E>,
}

impl<C, E> DuplexChan<C, E> {
    /// Commands sent by clients and not yet read by the server, oldest
    /// first.
    pub closed spec fn pending_commands(&self) -> Seq<C> {
        self.commands@
    }

    /// Every event the server ever broadcast, in send order.
    pub closed spec fn events(&self) -> Seq<E> {
        self.events.history()
    }

    /// Ring capacity of the event side.
    pub closed spec fn event_capacity(&self) -> nat {
        self.events.capacity()
    }

    /// Index of the oldest event still retained by the ring.
    pub closed spec fn events_first_retained(&self) -> nat {
        self.events.first_retained()
    }

    /// Number of live client handles.
    pub closed spec fn clients(&self) -> nat {
        self.commands.senders()
    }

    /// Whether the server side is still alive and reading.
    pub closed spec fn server_live(&self) -> bool {
        self.commands.receiver_live()
    }

    /// Internal consistency: the event ring is well-formed, each client
    /// holds exactly one command-sender registration and one event
    /// subscription, and the event side closes exactly when the server is
    /// gone.
    pub closed spec fn wf(&self) -> bool {
        &&& self.events.wf()
        &&& self.events.receivers() == self.commands.senders()
        &&& self.events.senders() == (if self.commands.receiver_live() {
            1nat
        } else {
            0nat
        })
    }

    /// A fresh duplex channel with the given event-ring capacity, handing
    /// back the server-side state and one client handle.
    pub fn with_capacity(capacity: usize) -> (r: (Self, DuplexClient))
        requires
            capacity > 0,
        ensures
            r.0.wf(),
            r.0.pending_commands() == Seq::<C>::empty(),
            r.0.events() == Seq::<E>::empty(),
            r.0.event_capacity() == capacity,
            r.0.events_first_retained() == 0,
            r.0.clients() == 1,
            r.0.server_live(),
            r.1.position() == 0,
    {
        let commands = UnboundedChan::new();
        let mut events = BroadcastChan::with_capacity(capacity);
        let cursor = events.subscribe();
        (DuplexChan { commands, events }, DuplexClient { events: cursor })
    }

    /// A fresh duplex channel with the default event-ring capacity.
    pub fn new() -> (r: (Self, DuplexClient))
        ensures
            r.0.wf(),
            r.0.pending_commands() == Seq::<C>::empty(),
            r.0.events() == Seq::<E>::empty(),
            r.0.event_capacity() == crate::channel::broadcast::DEFAULT_CAPACITY,
            r.0.events_first_retained() == 0,
            r.0.clients() == 1,
            r.0.server_live(),
            r.1.position() == 0,
    {
        Self::with_capacity(crate::channel::broadcast::DEFAULT_CAPACITY)
    }

    /// A client sends a command.  Never blocks: it fails exactly when the
    /// server has permanently stopped reading, surrendering the payload.
    pub fn client_send(&mut self, cmd: C) -> (r: Result<(), ChanClosed<C>>)
        requires
            old(self).wf(),
        ensures
            final(self).wf(),
            old(self).server_live() ==> {
                &&& r is Ok
                &&& final(self).pending_commands() == old(self).pending_commands().push(cmd)
            },
            !old(self).server_live() ==> {
                &&& r == Result::<(), ChanClosed<C>>::Err(ChanClosed(cmd))
                &&& final(self).pending_commands() == old(self).pending_commands()
            },
            final(self).events() == old(self).events(),
            final(self).events_first_retained() == old(self).events_first_retained(),
            final(self).event_capacity() == old(self).event_capacity(),
            final(self).clients() == old(self).clients(),
            final(self).server_live() == old(self).server_live(),
    {
        self.commands.send(cmd)
    }

    /// The server polls for the next command: the oldest pending one, in
    /// send order; `Closed` once the queue has drained and every client
    /// handle is gone; otherwise `Pending`, leaving the state untouched.
    pub fn server_receive(&mut self) -> (r: RecvPoll<C>)
        requires
            old(self).wf(),
        ensures
            final(self).wf(),
            old(self).pending_commands().len() > 0 ==> {
                &&& r == RecvPoll::Ready(old(self).pending_commands().first())
                &&& final(self).pending_commands() == old(self).pending_commands().drop_first()
            },
            old(self).pending_commands().len() == 0 ==> {
                &&& final(self).pending_commands() == old(self).pending_commands()
                &&& if old(self).clients() == 0 {
                    r is Closed
                } else {
                    r is Pending
                }
            },
            final(self).events() == old(self).events(),
            final(self).events_first_retained() == old(self).events_first_retained(),
            final(self).event_capacity() == old(self).event_capacity(),
            final(self).clients() == old(self).clients(),
            final(self).server_live() == old(self).server_live(),
    {
        self.commands.try_recv()
    }

    /// The server broadcasts an event to every subscribed client.  Never
    /// blocks: it fails exactly when zero clients are subscribed,
    /// surrendering the payload.
    pub fn server_send(&mut self, event: E) -> (r: Result<(), ChanClosed<E>>)
        requires
            old(self).wf(),
            old(self).events().len() < usize::MAX,
        ensures
            final(self).wf(),
            old(self).clients() == 0 ==> {
                &&& r == Result::<(), ChanClosed<E>>::Err(ChanClosed(event))
                &&& final(self).events() == old(self).events()
                &&& final(self).events_first_retained() == old(self).events_first_retained()
            },
            old(self).clients() > 0 ==> {
                &&& r is Ok
                &&& final(self).events() == old(self).events().push(event)
                &&& final(self).events_first_retained() == if old(self).events().len() - old(
                    self,
                ).events_first_retained() == old(self).event_capacity() {
                    old(self).events_first_retained() + 1
                } else {
                    old(self).events_first_retained()
                }
            },
            final(self).pending_commands() == old(self).pending_commands(),
            final(self).event_capacity() == old(self).event_capacity(),
            final(self).clients() == old(self).clients(),
            final(self).server_live() == old(self).server_live(),
    {
        self.events.send(event)
    }

    /// Creates a fresh client handle subscribed to the event stream at its
    /// current tail and sharing the command sender: multiple clients may
    /// coexist.
    pub fn client(&mut self) -> (c: DuplexClient)
        requires
            old(self).wf(),
            old(self).clients() < usize::MAX,
        ensures
            final(self).wf(),
            c.position() == old(self).events().len(),
            final(self).clients() == old(self).clients() + 1,
            final(self).pending_commands() == old(self).pending_commands(),
            final(self).events() == old(self).events(),
            final(self).events_first_retained() == old(self).events_first_retained(),
            final(self).event_capacity() == old(self).event_capacity(),
            final(self).server_live() == old(self).server_live(),
    {
        let cursor = self.events.subscribe();
        self.commands.add_sender();
        DuplexClient { events: cursor }
    }

    /// Unregisters a client handle: one command sender and one event
    /// subscription fewer.
    pub fn drop_client(&mut self)
        requires
            old(self).wf(),
            old(self).clients() > 0,
        ensures
            final(self).wf(),
            final(self).clients() == old(self).clients() - 1,
            final(self).pending_commands() == old(self).pending_commands(),
            final(self).events() == old(self).events(),
            final(self).events_first_retained() == old(self).events_first_retained(),
            final(self).event_capacity() == old(self).event_capacity(),
            final(self).server_live() == old(self).server_live(),
    {
        self.events.unsubscribe();
        self.commands.drop_sender();
    }

    /// Drops the server side: later client sends fail with the send-error
    /// contract, and clients at the event tail observe the stream ending.
    pub fn drop_server(&mut self)
        requires
            old(self).wf(),
            old(self).server_live(),
        ensures
            final(self).wf(),
            !final(self).server_live(),
            final(self).pending_commands() == Seq::<C>::empty(),
            final(self).events() == old(self).events(),
            final(self).events_first_retained() == old(self).events_first_retained(),
            final(self).event_capacity() == old(self).event_capacity(),
            final(self).clients() == old(self).clients(),
    {
        self.commands.drop_receiver();
        self.events.drop_sender();
    }

    /// Decomposes the paired state into its raw halves: the command queue
    /// and the event ring, consuming the duplex channel.
    pub fn split(self) -> (r: (UnboundedChan<C>, BroadcastChan<E>))
        requires
            self.wf(),
        ensures
            r.0@ == self.pending_commands(),
            r.0.senders() == self.clients(),
            r.0.receiver_live() == self.server_live(),
            r.1.wf(),
            r.1.history() == self.events(),
            r.1.first_retained() == self.events_first_retained(),
            r.1.capacity() == self.event_capacity(),
            r.1.receivers() == self.clients(),
    {
        (self.commands, self.events)
    }
}

impl<C, E: Dup> DuplexChan<C, E> {
    /// A client polls for its next event: its own copy of the next event
    /// after its cursor, in send order; the end of the stream once it is at
    /// the tail and the server is gone; a lag report, repositioning the
    /// cursor to the oldest retained event, if the ring overwrote it; and
    /// otherwise `Pending`, changing nothing.
    pub fn client_receive(&self, client: &mut DuplexClient) -> (r: BroadcastPoll<E>)
        requires
            self.wf(),
            old(client).position() <= self.events().len(),
        ensures
            old(client).position() < self.events_first_retained() ==> {
                &&& r == BroadcastPoll::<E>::Lagged(
                    crate::channel::broadcast::Lagged(
                        (self.events_first_retained() - old(client).position()) as usize,
                    ),
                )
                &&& final(client).position() == self.events_first_retained()
                &&& self.events_first_retained() < self.events().len()
            },
            self.events_first_retained() <= old(client).position() < self.events().len() ==> {
                &&& r == BroadcastPoll::Ready(self.events()[old(client).position() as int])
                &&& final(client).position() == old(client).position() + 1
            },
            old(client).position() == self.events().len() ==> {
                &&& *final(client) == *old(client)
                &&& if self.server_live() {
                    r is Pending
                } else {
                    r is Closed
                }
            },
    {
        self.events.recv(&mut client.events)
    }

    /// Drains every event currently deliverable to one client, in send
    /// order: exactly the event history from the client's position to the
    /// tail.
    pub fn client_receive_available(&self, client: &mut DuplexClient) -> (r: Vec<E>)
        requires
            self.wf(),
            self.events_first_retained() <= old(client).position() <= self.events().len(),
        ensures
            r@ == self.events().subrange(
                old(client).position() as int,
                self.events().len() as int,
            ),
            final(client).position() == self.events().len(),
    {
        self.events.recv_available(&mut client.events)
    }
}

/// Builder for duplex channels, suitable for registration in the
/// dependency-resolution container.
#[derive(Debug, Clone, Copy)]
pub struct DuplexChanBuilder;

impl DuplexChanBuilder {
    /// Builds a fresh duplex channel with the default event-ring capacity,
    /// handing back the server-side state and one client handle.
    pub fn chan<C, E>(&self) -> (r: (DuplexChan<C, E>, DuplexClient))
        ensures
            r.0.wf(),
            r.0.pending_commands() == Seq::<C>::empty(),
            r.0.events() == Seq::<E>::empty(),
            r.0.event_capacity() == crate::channel::broadcast::DEFAULT_CAPACITY,
            r.0.events_first_retained() == 0,
            r.0.clients() == 1,
            r.0.server_live(),
            r.1.position() == 0,
    {
        DuplexChan::new()
    }
}

} // verus!
