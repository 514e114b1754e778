//! The actor task lifecycle: an owned execution unit that holds exclusive
//! mutable state and consumes one mailbox until the mailbox closes.
//!
//! Every mutation of the actor's state goes through `step`, one message at a
//! time; the ghost log of handled messages, together with `run_seq`, says
//! that the state is always the fold of the handling step over that log.

use vstd::prelude::*;
use crate::ActorFailure;
use crate::channel;
use crate::mailbox::Mailbox;
use crate::mailbox::ReceiveOutcome;

verus! {

/// The two states of an actor task's lifecycle.
#[derive(Debug, PartialEq, Eq, Structural, Clone, Copy)]
pub enum Phase {
    /// The task still consumes its mailbox.
    Running,
    /// The task performs no further work: its mailbox closed and drained, or
    /// its handling logic failed.
    Terminated,
}

/// What a handling step emits for a caller that embedded a reply slot in its
/// message: the slot itself and the value owed to it. The slot travels inside
/// the message, so handling it hands it back here together with the value;
/// the receive loop then performs the one-shot send.
pub type Reply<V> = (tokio::sync::oneshot::Sender<V>, V);

/// An actor's behaviour: its state type, how one message transforms the
/// state, which reply a message elicits, and on which messages handling
/// fails.
pub trait Actor: Sized {
    /// The messages this actor understands.
    type Msg;

    /// The type its reply slots carry.
    type ReplyVal;

    /// The state after handling `m` successfully.
    spec fn next(self, m: Self::Msg) -> Self;

    /// Whether handling `m` in this state fails (an `ActorFailure`, fatal to
    /// the actor instance).
    spec fn failing(self, m: Self::Msg) -> bool;

    /// The reply `m` elicits in this state: the slot `m` carries and the
    /// value owed to it, or nothing for a message without a slot.
    spec fn reply_of(self, m: Self::Msg) -> Option<Reply<Self::ReplyVal>>;

    /// Handle one message against the current state. Succeeds, moving the
    /// state to `next`, exactly when the message is not a failing one; on
    /// success the emitted reply is exactly `reply_of`, as data, for the
    /// receive loop to deliver. A failing message emits no reply.
    fn on_message(&mut self, m: Self::Msg) -> (r: Result<
        Option<Reply<Self::ReplyVal>>,
        ActorFailure,
    >)
        ensures
            r is Ok <==> !old(self).failing(m),
            r is Ok ==> *final(self) == old(self).next(m),
            r matches Ok(out) ==> out == old(self).reply_of(m),
    ;
}

/// The state after handling `msgs` in order, starting from `a`.
pub open spec fn run_seq<A: Actor>(a: A, msgs: Seq<A::Msg>) -> A
    decreases msgs.len(),
{
    if msgs.len() == 0 {
        a
    } else {
        run_seq(a.next(msgs[0]), msgs.drop_first())
    }
}

/// Whether handling `msgs` in order, starting from `a`, meets no failure.
pub open spec fn handles_all<A: Actor>(a: A, msgs: Seq<A::Msg>) -> bool
    decreases msgs.len(),
{
    msgs.len() == 0
        || (!a.failing(msgs[0]) && handles_all(a.next(msgs[0]), msgs.drop_first()))
}

/// Handling a sequence and then one more message is handling the extended
/// sequence.
pub proof fn lemma_run_seq_snoc<A: Actor>(a: A, s: Seq<A::Msg>, m: A::Msg)
    ensures
        run_seq(a, s.push(m)) == run_seq(a, s).next(m),
    decreases s.len(),
{
    if s.len() == 0 {
        assert(s.push(m)[0] == m);
        assert(s.push(m).drop_first() =~= Seq::<A::Msg>::empty());
        assert(run_seq(a, s) == a);
        assert(run_seq(a.next(m), Seq::<A::Msg>::empty()) == a.next(m));
        assert(run_seq(a, s.push(m)) == run_seq(a.next(m), s.push(m).drop_first()));
    } else {
        assert(s.push(m)[0] == s[0]);
        assert(s.push(m).drop_first() =~= s.drop_first().push(m));
        lemma_run_seq_snoc(a.next(s[0]), s.drop_first(), m);
    }
}

/// How many of `msgs`, handled in order from `a`, are handled before the
/// first failure (all of them when none fails).
pub open spec fn failfree_prefix_len<A: Actor>(a: A, msgs: Seq<A::Msg>) -> int
    decreases msgs.len(),
{
    if msgs.len() == 0 {
        0
    } else if a.failing(msgs[0]) {
        0
    } else {
        1 + failfree_prefix_len(a.next(msgs[0]), msgs.drop_first())
    }
}

/// A failure-free sequence stays failure-free when extended by a message that
/// does not fail at its end.
pub proof fn lemma_handles_all_snoc<A: Actor>(a: A, s: Seq<A::Msg>, m: A::Msg)
    requires
        handles_all(a, s),
        !run_seq(a, s).failing(m),
    ensures
        handles_all(a, s.push(m)),
    decreases s.len(),
{
    if s.len() == 0 {
        assert(s.push(m)[0] == m);
        assert(run_seq(a, s) == a);
        assert(s.push(m).drop_first() =~= Seq::<A::Msg>::empty());
        assert(handles_all(a.next(m), Seq::<A::Msg>::empty()));
    } else {
        assert(s.push(m)[0] == s[0]);
        assert(s.push(m).drop_first() =~= s.drop_first().push(m));
        lemma_handles_all_snoc(a.next(s[0]), s.drop_first(), m);
    }
}

/// Where a failure-free prefix of length `k` reaches a state in which the
/// next message fails, exactly `k` messages are handled before the first
/// failure.
pub proof fn lemma_failfree_prefix_at<A: Actor>(a: A, s: Seq<A::Msg>, k: int)
    requires
        0 <= k < s.len(),
        handles_all(a, s.take(k)),
        run_seq(a, s.take(k)).failing(s[k]),
    ensures
        failfree_prefix_len(a, s) == k,
    decreases k,
{
    if k == 0 {
        assert(s.take(0) =~= Seq::<A::Msg>::empty());
        assert(run_seq(a, s.take(0)) == a);
    } else {
        assert(s.take(k)[0] == s[0]);
        assert(s.take(k).drop_first() =~= s.drop_first().take(k - 1));
        assert(s.drop_first()[k - 1] == s[k]);
        lemma_failfree_prefix_at(a.next(s[0]), s.drop_first(), k - 1);
    }
}

/// Along a failure-free sequence, no prefix reaches a state in which the next
/// message of the sequence fails.
pub proof fn lemma_handles_all_at<A: Actor>(a: A, s: Seq<A::Msg>, k: int)
    requires
        handles_all(a, s),
        0 <= k < s.len(),
    ensures
        !run_seq(a, s.take(k)).failing(s[k]),
    decreases k,
{
    if k == 0 {
        assert(s.take(0) =~= Seq::<A::Msg>::empty());
    } else {
        lemma_handles_all_at(a.next(s[0]), s.drop_first(), k - 1);
        assert(s.take(k)[0] == s[0]);
        assert(s.take(k).drop_first() =~= s.drop_first().take(k - 1));
        assert(s.drop_first()[k - 1] == s[k]);
    }
}

/// An actor task: exclusive owner of one actor state, mutating it only by
/// handling messages one at a time.
pub struct ActorTask<A: Actor> {
    state: A,
    phase: Phase,
    init: Ghost<A>,
    handled: Ghost<Seq<A::Msg>>,
    failed: Ghost<bool>,
}

impl<A: Actor> ActorTask<A> {
    /// The actor state as it stands now.
    pub closed spec fn state_spec(self) -> A {
        self.state
    }

    /// Running or Terminated.
    pub closed spec fn phase_spec(self) -> Phase {
        self.phase
    }

    /// The state the task was constructed with.
    pub closed spec fn init_spec(self) -> A {
        self.init@
    }

    /// The messages handled successfully so far, in handling order.
    pub closed spec fn handled_log(self) -> Seq<A::Msg> {
        self.handled@
    }

    /// Whether the handling logic has failed on some message.
    pub closed spec fn has_failed(self) -> bool {
        self.failed@
    }

    /// Well-formedness: all mutation is serialized through the handling of
    /// logged messages, so unless a failure interrupted a handling step the
    /// state is the fold of the handling step over the log; and a failure
    /// always terminates the task.
    pub open spec fn wf(self) -> bool {
        &&& !self.has_failed() ==> self.state_spec() == run_seq(
            self.init_spec(),
            self.handled_log(),
        )
        &&& self.has_failed() ==> self.phase_spec() is Terminated
    }

    /// Start a task owning `state`, with nothing handled yet.
    pub fn new(state: A) -> (t: Self)
        ensures
            t.wf(),
            t.phase_spec() is Running,
            t.state_spec() == state,
            t.init_spec() == state,
            t.handled_log() == Seq::<A::Msg>::empty(),
            !t.has_failed(),
    {
        let ghost init_state = state;
        ActorTask {
            state,
            phase: Phase::Running,
            init: Ghost(init_state),
            handled: Ghost(Seq::empty()),
            failed: Ghost(false),
        }
    }

    /// The task's current phase.
    pub fn phase(&self) -> (r: Phase)
        ensures
            r == self.phase_spec(),
    {
        self.phase
    }

    /// Read the actor state. Only the task's owner can reach this: handles
    /// hold no way to it.
    pub fn state_ref(&self) -> (r: &A)
        ensures
            *r == self.state_spec(),
    {
        &self.state
    }

    /// Take one step of the receive loop, given what the mailbox reported.
    /// A message is handled exactly once, synchronously, and the reply it
    /// elicits (`reply_of`, pinned by `on_message`'s contract) is sent
    /// through its slot before the next message is taken; a failing message
    /// terminates the task (fatal-on-failure policy); a closed report
    /// terminates the task; an empty report changes nothing (the task would
    /// suspend and try again).
    pub fn step(&mut self, event: ReceiveOutcome<A::Msg>)
        requires
            old(self).wf(),
            old(self).phase_spec() is Running,
        ensures
            final(self).wf(),
            final(self).init_spec() == old(self).init_spec(),
            event is Empty ==> *final(self) == *old(self),
            event is Closed ==> {
                &&& final(self).phase_spec() is Terminated
                &&& final(self).handled_log() == old(self).handled_log()
                &&& final(self).state_spec() == old(self).state_spec()
                &&& final(self).has_failed() == old(self).has_failed()
            },
            event matches ReceiveOutcome::Message(m) ==> {
                &&& !old(self).state_spec().failing(m) ==> {
                    &&& final(self).phase_spec() is Running
                    &&& final(self).state_spec() == old(self).state_spec().next(m)
                    &&& final(self).handled_log() == old(self).handled_log().push(m)
                    &&& final(self).has_failed() == old(self).has_failed()
                }
                &&& old(self).state_spec().failing(m) ==> {
                    &&& final(self).phase_spec() is Terminated
                    &&& final(self).has_failed()
                    &&& final(self).handled_log() == old(self).handled_log()
                }
            },
    {
        match event {
            ReceiveOutcome::Message(m) => {
                let ghost msg = m;
                match self.state.on_message(m) {
                    Ok(out) => {
                        match out {
                            Some(reply) => {
                                let (slot, v) = reply;
                                // A dropped slot only means nobody awaits the
                                // answer: sends are fire-and-forget.
                                let _ = channel::reply_send(slot, v);
                            },
                            None => {},
                        }
                        proof {
                            self.handled@ = self.handled@.push(msg);
                            lemma_run_seq_snoc(self.init@, old(self).handled@, msg);
                        }
                    },
                    Err(_) => {
                        self.phase = Phase::Terminated;
                        proof {
                            self.failed@ = true;
                        }
                    },
                }
            },
            ReceiveOutcome::Empty => {},
            ReceiveOutcome::Closed => {
                self.phase = Phase::Terminated;
            },
        }
    }
}

/// All mutation of an actor's state is serialized through its one task: at
/// every reachable state of a task whose handling has not failed, the state
/// is exactly the fold of the handling step over the messages handled so far,
/// one at a time and in the order they were received.
pub proof fn lemma_serialized_mutation<A: Actor>(t: ActorTask<A>)
    requires
        t.wf(),
        !t.has_failed(),
    ensures
        t.state_spec() == run_seq(t.init_spec(), t.handled_log()),
{
}

/// Drive one actor task against one mailbox until the mailbox is drained,
/// closed, or the handling logic fails. When no failure occurs along the
/// pending messages, every one of them is handled, exactly once and in the
/// order it was accepted, and the task terminates exactly when every
/// producing end is already gone (drain on close). When some pending message
/// fails, the failure-free prefix before it is handled in order, the failing
/// message is consumed but not handled, the task terminates as failed, and
/// the messages after the failing one are discarded unprocessed.
pub fn pump<A: Actor>(mailbox: &mut Mailbox<A::Msg>, task: &mut ActorTask<A>)
    requires
        old(mailbox).wf(),
        old(mailbox).receiver_live(),
        old(task).wf(),
        old(task).phase_spec() is Running,
    ensures
        final(mailbox).wf(),
        final(task).wf(),
        final(mailbox).receiver_live(),
        final(mailbox).sent_log() == old(mailbox).sent_log(),
        final(mailbox).producer_count() == old(mailbox).producer_count(),
        final(mailbox).capacity_spec() == old(mailbox).capacity_spec(),
        final(task).init_spec() == old(task).init_spec(),
        handles_all(old(task).state_spec(), old(mailbox).pending()) ==> {
            &&& final(task).handled_log() == old(task).handled_log() + old(mailbox).pending()
            &&& final(task).state_spec() == run_seq(
                old(task).state_spec(),
                old(mailbox).pending(),
            )
            &&& !final(task).has_failed()
            &&& final(mailbox).pending() == Seq::<A::Msg>::empty()
            &&& final(mailbox).delivered_log() == old(mailbox).delivered_log()
                + old(mailbox).pending()
            &&& (final(task).phase_spec() is Terminated <==> old(mailbox).producer_count()
                == 0)
        },
        !handles_all(old(task).state_spec(), old(mailbox).pending()) ==> {
            &&& final(task).has_failed()
            &&& final(task).phase_spec() is Terminated
            &&& final(task).handled_log() == old(task).handled_log() + old(
                mailbox,
            ).pending().take(failfree_prefix_len(old(task).state_spec(), old(mailbox).pending()))
            &&& final(mailbox).pending() == old(mailbox).pending().skip(
                failfree_prefix_len(old(task).state_spec(), old(mailbox).pending()) + 1,
            )
            &&& final(mailbox).delivered_log() == old(mailbox).delivered_log() + old(
                mailbox,
            ).pending().take(
                failfree_prefix_len(old(task).state_spec(), old(mailbox).pending()) + 1,
            )
        },
{
    let ghost s0 = old(task).state_spec();
    let ghost h0 = old(task).handled_log();
    let ghost p0 = old(mailbox).pending();
    let ghost d0 = old(mailbox).delivered_log();
    let ghost mut k: int = 0;
    proof {
        assert(p0.skip(0) =~= p0);
        assert(h0 + p0.take(0) =~= h0);
        assert(d0 + p0.take(0) =~= d0);
        assert(p0.take(0) =~= Seq::<A::Msg>::empty());
        assert(run_seq(s0, Seq::<A::Msg>::empty()) == s0);
        assert(handles_all(s0, Seq::<A::Msg>::empty()));
    }
    loop
        invariant
            s0 == old(task).state_spec(),
            h0 == old(task).handled_log(),
            p0 == old(mailbox).pending(),
            d0 == old(mailbox).delivered_log(),
            0 <= k <= p0.len(),
            mailbox.wf(),
            task.wf(),
            mailbox.receiver_live(),
            mailbox.sent_log() == old(mailbox).sent_log(),
            mailbox.producer_count() == old(mailbox).producer_count(),
            mailbox.capacity_spec() == old(mailbox).capacity_spec(),
            task.init_spec() == old(task).init_spec(),
            task.phase_spec() is Running,
            !task.has_failed(),
            mailbox.pending() == p0.skip(k),
            mailbox.delivered_log() == d0 + p0.take(k),
            task.handled_log() == h0 + p0.take(k),
            task.state_spec() == run_seq(s0, p0.take(k)),
            handles_all(s0, p0.take(k)),
        decreases p0.len() - k,
    {
        let outcome = mailbox.dequeue();
        match outcome {
            ReceiveOutcome::Message(m) => {
                let ghost msg = m;
                let ghost task_before = *task;
                proof {
                    assert(p0.skip(k)[0] == p0[k]);
                }
                task.step(ReceiveOutcome::Message(m));
                if task.phase() == Phase::Terminated {
                    // The handling logic failed on this message: fatal to
                    // this actor instance, remaining messages are discarded.
                    proof {
                        assert(task_before.state_spec().failing(p0[k]));
                        lemma_failfree_prefix_at(s0, p0, k);
                        if handles_all(s0, p0) {
                            lemma_handles_all_at(s0, p0, k);
                            assert(false);
                        }
                        assert(mailbox.pending() =~= p0.skip(k + 1));
                        assert(mailbox.delivered_log() =~= d0 + p0.take(k + 1));
                    }
                    return ;
                }
                proof {
                    assert(!task_before.state_spec().failing(p0[k]));
                    lemma_handles_all_snoc(s0, p0.take(k), p0[k]);
                    assert(p0.take(k + 1) =~= p0.take(k).push(p0[k]));
                    assert(p0.skip(k).drop_first() =~= p0.skip(k + 1));
                    lemma_run_seq_snoc(s0, p0.take(k), p0[k]);
                    assert(task.handled_log() =~= h0 + p0.take(k + 1));
                    assert(mailbox.delivered_log() =~= d0 + p0.take(k + 1));
                    k = k + 1;
                }
            },
            ReceiveOutcome::Empty => {
                proof {
                    assert(p0.skip(k).len() == 0);
                    assert(k == p0.len());
                    assert(p0.take(k) =~= p0);
                    assert(mailbox.pending() =~= Seq::<A::Msg>::empty());
                }
                return ;
            },
            ReceiveOutcome::Closed => {
                task.step(ReceiveOutcome::Closed);
                proof {
                    assert(p0.skip(k).len() == 0);
                    assert(k == p0.len());
                    assert(p0.take(k) =~= p0);
                    assert(mailbox.pending() =~= Seq::<A::Msg>::empty());
                }
                return ;
            },
        }
    }
}

} // verus!
