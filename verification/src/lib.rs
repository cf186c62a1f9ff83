//! In-process asynchronous messaging core: single-consumer command queues,
//! multi-consumer broadcast buses with bounded ring capacity, paired duplex
//! command/event channels, a type-keyed dependency-resolution container, and
//! a task-channel registry addressing live channels by an opaque identifier.
//!
//! The channel types here are the synchronous cores: every state transition
//! (enqueue, dequeue, subscription, lag detection, close) is a verified
//! function over a mathematical model of the channel.  Suspension and wakeup
//! are left to an asynchronous driver built around these cores.

pub mod async_runtime;
pub mod channel;
pub mod entity;
pub mod flake_id;
pub mod http;
pub mod provider;
pub mod repository;
pub mod result;
pub mod use_case;

