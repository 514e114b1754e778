//! The trusted boundary to tokio's bounded multi-producer single-consumer
//! channel, which carries this library's mailboxes at run time, and to its
//! one-shot channel, which carries reply slots.
//!
//! Every item here is believed, not verified: each wrapper's contract states
//! only what tokio's own source shows, and nothing about which outcome a
//! concurrent run takes.

use vstd::prelude::*;
use crate::SendError;
use crate::mailbox::EnqueueOutcome;

verus! {

#[verifier::external_type_specification]
#[verifier::external_body]
#[verifier::reject_recursive_types(T)]
pub struct ExSender<T>(tokio::sync::mpsc::Sender<T>);

#[verifier::external_type_specification]
#[verifier::external_body]
#[verifier::reject_recursive_types(T)]
pub struct ExReceiver<T>(tokio::sync::mpsc::Receiver<T>);

#[verifier::external_type_specification]
#[verifier::external_body]
#[verifier::reject_recursive_types(T)]
pub struct ExOneshotSender<T>(tokio::sync::oneshot::Sender<T>);

/// The largest capacity tokio's bounded channel accepts: its internal
/// semaphore asserts `permits <= usize::MAX >> 3` (`Semaphore::MAX_PERMITS`)
/// at construction.
pub const MAX_CAPACITY: usize = usize::MAX >> 3;

/// Relies on tokio::sync::mpsc::channel: allocates a bounded channel and
/// returns its unique pair of ends. tokio panics on a zero capacity and on
/// one above its semaphore's maximum, so those inputs are excluded.
#[verifier::external_body]
pub(crate) fn channel_pair<M>(capacity: usize) -> (r: (
    tokio::sync::mpsc::Sender<M>,
    tokio::sync::mpsc::Receiver<M>,
))
    requires
        1 <= capacity <= MAX_CAPACITY,
{
    tokio::sync::mpsc::channel(capacity)
}

/// Relies on tokio::sync::mpsc::Sender::clone: a new producing end to the
/// same channel, raising the producer count by one. Nothing further can be
/// stated of the opaque end, so there is no `ensures`.
pub assume_specification<T>[ <tokio::sync::mpsc::Sender<T> as core::clone::Clone>::clone ](
    s: &tokio::sync::mpsc::Sender<T>,
) -> tokio::sync::mpsc::Sender<T>;

/// Relies on tokio::sync::mpsc::Sender::try_send: enqueues without waiting;
/// reports `Full` when the channel is at capacity and `Closed` when the
/// receiving end is gone, handing the message back untouched either way.
/// Which outcome occurs depends on concurrent senders and the receiver, so
/// nothing more is stated.
#[verifier::external_body]
pub(crate) fn sender_try_send<M>(s: &tokio::sync::mpsc::Sender<M>, m: M) -> (r: EnqueueOutcome<
    M,
>)
    ensures
        r matches EnqueueOutcome::Full(x) ==> x == m,
        r matches EnqueueOutcome::Closed(x) ==> x == m,
{
    match s.try_send(m) {
        Ok(()) => EnqueueOutcome::Accepted,
        Err(tokio::sync::mpsc::error::TrySendError::Full(x)) => EnqueueOutcome::Full(x),
        Err(tokio::sync::mpsc::error::TrySendError::Closed(x)) => EnqueueOutcome::Closed(x),
    }
}

/// Relies on tokio::sync::mpsc::Sender::blocking_send: suspends the calling
/// thread while the channel is full (backpressure) and fails exactly when the
/// receiving end is gone; whether that is so depends on the concurrent
/// receiver, so nothing more is stated. tokio panics when this is called from
/// inside an asynchronous execution context: callers must be synchronous.
#[verifier::external_body]
pub(crate) fn sender_blocking_send<M>(s: &tokio::sync::mpsc::Sender<M>, m: M) -> (r: Result<
    (),
    SendError,
>) {
    match s.blocking_send(m) {
        Ok(()) => Ok(()),
        Err(_) => Err(SendError::Closed),
    }
}

/// Relies on tokio::sync::mpsc::Receiver::blocking_recv: suspends the calling
/// thread until a message arrives (messages come out in send order, each
/// exactly once) or until every sender is dropped and the queue is drained,
/// which yields `None`. tokio panics when this is called from inside an
/// asynchronous execution context: callers must be synchronous.
#[verifier::external_body]
pub(crate) fn receiver_blocking_recv<M>(rx: &mut tokio::sync::mpsc::Receiver<M>) -> (r: Option<
    M,
>) {
    rx.blocking_recv()
}

/// Relies on tokio::sync::oneshot::Sender::send: delivers the value to the
/// receiving half unless that half was already dropped, in which case the
/// value comes back untouched.
#[verifier::external_body]
pub(crate) fn reply_send<T>(tx: tokio::sync::oneshot::Sender<T>, v: T) -> (r: Result<(), T>)
    ensures
        r matches Err(x) ==> x == v,
{
    tx.send(v)
}

} // verus!
