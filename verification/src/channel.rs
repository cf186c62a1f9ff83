//! Shared channel capability types: the send-error contract and the
//! closed-channel error that satisfies it.

pub mod broadcast;
pub mod duplex;
pub mod unbounded;

use vstd::prelude::*;

verus! {

/// Capability that every channel-send failure must satisfy: the error can
/// surrender the unsent payload back to the caller, so a failed send never
/// silently loses a message.
pub trait SendError<T>: Sized {
    /// The payload that the failed send did not deliver.
    spec fn unsent(self) -> T;

    /// Surrenders the undelivered payload back to the caller.
    fn unsent_item(self) -> (r: T)
        ensures
            r == self.unsent(),
    ;
}

/// Error returned by `send` on a channel whose receiving side is gone.
/// Carries the payload that could not be delivered.
#[derive(Debug, PartialEq, Eq, Clone, Copy)]
pub struct ChanClosed<T>(pub T);

impl<T> SendError<T> for ChanClosed<T> {
    open spec fn unsent(self) -> T {
        self.0
    }

    fn unsent_item(self) -> (r: T)
        ensures
            r == self.0,
    {
        self.0
    }
}

/// Capability of a message type that can be duplicated without loss: the
/// duplicate is equal to the original.  Broadcast consumers each receive
/// their own copy of a message, and the registry can hand out copies of a
/// stored channel handle, so both demand this of their payloads.
pub trait Dup: Sized {
    /// Returns a value equal to `self`, leaving `self` usable.
    fn dup(&self) -> (r: Self)
        ensures
            r == *self,
    ;
}

impl Dup for u64 {
    fn dup(&self) -> (r: Self)
        ensures
            r == *self,
    {
        *self
    }
}

impl Dup for i64 {
    fn dup(&self) -> (r: Self)
        ensures
            r == *self,
    {
        *self
    }
}

impl Dup for usize {
    fn dup(&self) -> (r: Self)
        ensures
            r == *self,
    {
        *self
    }
}

impl Dup for bool {
    fn dup(&self) -> (r: Self)
        ensures
            r == *self,
    {
        *self
    }
}

} // verus!
