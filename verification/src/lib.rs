//! A lightweight actor runtime pattern: an isolated unit of mutable state
//! behind a single-owner execution task, reachable only through a bounded,
//! ordered, multi-producer single-consumer mailbox of typed messages.
//!
//! The mailbox protocol itself — bounded FIFO delivery, exactly-once,
//! backpressure, close-on-last-handle-drop, drain-on-close — is verified on
//! the `mailbox::Mailbox` model, and the actor lifecycle (one serialized
//! handling step per message, fatal-on-failure, terminate once drained) on
//! `actor::ActorTask`. At run time the same lifecycle runs against tokio's
//! bounded channel, reached only through the trusted wrappers in `channel`:
//! `handle::Handle` is the cloneable producing end, `handle::actor_turn` one
//! verified turn of the receive loop.

use vstd::prelude::*;

pub mod actor;
pub mod channel;
pub mod counter;
pub mod handle;
pub mod mailbox;

verus! {

/// Number of messages a mailbox holds before senders must wait, unless a
/// caller picks another capacity at construction.
pub const DEFAULT_CAPACITY: usize = 8;

/// Error returned by a send when the actor task has terminated: the mailbox's
/// consuming end is gone and the message cannot be delivered.
#[derive(Debug, PartialEq, Eq, Structural, Clone, Copy)]
pub enum SendError {
    Closed,
}

/// Error raised when an actor's message-handling logic fails while processing
/// a message. It is fatal to that one actor instance and is never surfaced to
/// the sender of the message.
#[derive(Debug, PartialEq, Eq, Structural, Clone, Copy)]
pub struct ActorFailure;

} // verus!
