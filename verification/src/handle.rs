//! The handle façade over a live mailbox, and one turn of the receive loop
//! that an actor task runs against it.
//!
//! A handle holds only the producing end of its actor's mailbox: there is no
//! receive operation here, so only the one actor task ever reads messages or
//! touches the actor's state.

use vstd::prelude::*;
use crate::SendError;
use crate::actor::Actor;
use crate::actor::ActorTask;
use crate::actor::Phase;
use crate::channel;
use crate::mailbox::EnqueueOutcome;
use crate::mailbox::ReceiveOutcome;

verus! {

/// A cheap, cloneable reference to one actor's mailbox. Cloning is the only
/// supported way to give several parts of a program concurrent access to one
/// actor: every clone routes to the same actor task. Dropping the last clone
/// closes the mailbox and, once it drains, terminates the task.
#[verifier::reject_recursive_types(M)]
pub struct Handle<M> {
    /// The producing end of the actor's mailbox.
    pub sender: tokio::sync::mpsc::Sender<M>,
}

impl<M> Handle<M> {
    /// Allocate a fresh mailbox of the given capacity and return the handle
    /// (its producing end) together with the unique consuming end, which
    /// exactly one actor task must take. Running that task needs an executor
    /// or a dedicated thread, which lives outside this library; `actor_turn`
    /// is each of its steps. The capacity is bounded above by what tokio's
    /// channel accepts.
    pub fn with_consumer(capacity: usize) -> (r: (Handle<M>, tokio::sync::mpsc::Receiver<M>))
        requires
            1 <= capacity <= crate::channel::MAX_CAPACITY,
    {
        let (tx, rx) = channel::channel_pair(capacity);
        (Handle { sender: tx }, rx)
    }

    /// As `with_consumer`, with the default capacity.
    pub fn with_default_consumer() -> (r: (Handle<M>, tokio::sync::mpsc::Receiver<M>)) {
        proof {
            vstd::bits::lemma_usize_shr_is_div(usize::MAX, 3);
            vstd::arithmetic::power2::lemma2_to64();
            assert(usize::MAX >= 64);
            assert(usize::MAX as nat / 8 >= 8);
        }
        Self::with_consumer(crate::DEFAULT_CAPACITY)
    }

    /// Send one message, suspending the calling thread while the mailbox is
    /// full (backpressure). Fails with `SendError::Closed` exactly when the
    /// actor task has terminated and dropped the consuming end; on success
    /// ownership of the message has passed to the mailbox. Processing is
    /// fire-and-forget: no outcome of handling flows back here.
    pub fn send(&self, m: M) -> (r: Result<(), SendError>)
        ensures
            r matches Err(e) ==> e == SendError::Closed,
    {
        channel::sender_blocking_send(&self.sender, m)
    }

    /// Attempt to send without waiting: `Full` (with the message handed back)
    /// where `send` would suspend, `Closed` where it would fail.
    pub fn try_send(&self, m: M) -> (r: EnqueueOutcome<M>)
        ensures
            r matches EnqueueOutcome::Full(x) ==> x == m,
            r matches EnqueueOutcome::Closed(x) ==> x == m,
    {
        channel::sender_try_send(&self.sender, m)
    }
}

/// The construction contract in one call: allocate a fresh mailbox at the
/// default capacity, bind a new actor task to the given initial state, and
/// return the handle, the mailbox's consuming end, and the task.
/// The task starts in `Running` with nothing handled; a driver (an executor
/// thread outside this library) must now run `actor_turn` until it reports
/// false, holding the consuming end for exactly as long.
pub fn construct<A: Actor>(state: A) -> (r: (
    Handle<A::Msg>,
    tokio::sync::mpsc::Receiver<A::Msg>,
    ActorTask<A>,
))
    ensures
        r.2.wf(),
        r.2.phase_spec() is Running,
        r.2.state_spec() == state,
        r.2.init_spec() == state,
        r.2.handled_log() == Seq::<A::Msg>::empty(),
        !r.2.has_failed(),
{
    let (handle, rx) = Handle::with_default_consumer();
    let task = ActorTask::new(state);
    (handle, rx, task)
}

impl<M> Clone for Handle<M> {
    /// An independent handle to the same mailbox, whatever the message type:
    /// a clone of the producing end.
    fn clone(&self) -> (r: Self) {
        Handle { sender: self.sender.clone() }
    }
}

/// One turn of an actor task's receive loop against the real mailbox: wait
/// until a message arrives or the mailbox closes, take the matching lifecycle
/// step, and report whether the task still runs. A driver calls this until it
/// returns false; each turn handles at most one message, so all mutation of
/// the actor state stays serialized through this loop.
pub fn actor_turn<A: Actor>(
    rx: &mut tokio::sync::mpsc::Receiver<A::Msg>,
    task: &mut ActorTask<A>,
) -> (more: bool)
    requires
        old(task).wf(),
        old(task).phase_spec() is Running,
    ensures
        final(task).wf(),
        final(task).init_spec() == old(task).init_spec(),
        more <==> final(task).phase_spec() is Running,
        final(task).phase_spec() is Running ==> {
            &&& final(task).handled_log().len() == old(task).handled_log().len() + 1
            &&& final(task).handled_log() == old(task).handled_log().push(
                final(task).handled_log().last(),
            )
            &&& !old(task).state_spec().failing(final(task).handled_log().last())
            &&& final(task).state_spec() == old(task).state_spec().next(
                final(task).handled_log().last(),
            )
            &&& !final(task).has_failed()
        },
        final(task).phase_spec() is Terminated
            ==> final(task).handled_log() == old(task).handled_log(),
        final(task).phase_spec() is Terminated && !final(task).has_failed()
            ==> final(task).state_spec() == old(task).state_spec(),
{
    match channel::receiver_blocking_recv(rx) {
        Some(m) => {
            let ghost msg = m;
            task.step(ReceiveOutcome::Message(m));
            proof {
                assert(old(task).handled_log().push(msg).last() == msg);
            }
        },
        None => {
            task.step(ReceiveOutcome::Closed);
        },
    }
    task.phase() == Phase::Running
}

} // verus!
