//! Websocket messages as plain values, and the closed-session error.
//! Frame transport belongs to the network layer; the core exchanges these
//! message values with it.

pub mod protocol;

use vstd::prelude::*;

use crate::http::web_socket::protocol::CloseReason;

verus! {

/// Error of an operation on a websocket session that has closed.
#[derive(Debug, Clone, Copy, PartialEq, Eq, Structural)]
pub struct Closed;

/// A websocket message, as plain values.
#[derive(Debug, PartialEq, Eq)]
pub enum WSMessage {
    /// Text message.
    Text(String),
    /// Binary message.
    Binary(Vec<u8>),
    /// Ping message.
    Ping(Vec<u8>),
    /// Pong message.
    Pong(Vec<u8>),
    /// Close message with optional reason.
    Close(Option<CloseReason>),
}

} // verus!
