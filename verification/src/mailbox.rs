//! The mailbox protocol: a bounded, ordered, multi-producer single-consumer
//! queue of messages, modelled as a fixed-capacity queue together with the
//! producing-end count and the liveness of the consuming end.
//!
//! The model keeps two ghost logs, the messages accepted so far and the
//! messages handed out so far, and its central invariant says that every
//! accepted message is handed out exactly once, in acceptance order:
//! `sent_log == delivered_log + pending`.

use vstd::prelude::*;

verus! {

/// What a single enqueue attempt did.
pub enum EnqueueOutcome<M> {
    /// The message was accepted into the queue.
    Accepted,
    /// The queue holds `capacity` messages: a sender would suspend until the
    /// consumer makes room. The message comes back untouched.
    Full(M),
    /// Delivery is impossible: the consuming end is gone, or no producing end
    /// remains. The message comes back untouched.
    Closed(M),
}

/// What a single receive attempt did.
pub enum ReceiveOutcome<M> {
    /// The oldest pending message, removed from the queue.
    Message(M),
    /// Nothing pending, but producing ends remain: a receiver would suspend
    /// until a message arrives.
    Empty,
    /// Nothing pending and every producing end is dropped: the mailbox is
    /// drained and no message can ever arrive again.
    Closed,
}

/// A bounded FIFO mailbox with a counted set of producing ends and a unique
/// consuming end.
pub struct Mailbox<M> {
    queue: Vec<M>,
    capacity: usize,
    producers: usize,
    receiver_alive: bool,
    sent: Ghost<Seq<M>>,
    delivered: Ghost<Seq<M>>,
}

impl<M> Mailbox<M> {
    /// The messages accepted but not yet handed to the consumer, oldest first.
    pub closed spec fn pending(self) -> Seq<M> {
        self.queue@
    }

    /// The fixed bound on how many messages may be pending at once.
    pub closed spec fn capacity_spec(self) -> nat {
        self.capacity as nat
    }

    /// How many producing ends (handles and their clones) exist.
    pub closed spec fn producer_count(self) -> nat {
        self.producers as nat
    }

    /// Whether the unique consuming end still exists.
    pub closed spec fn receiver_live(self) -> bool {
        self.receiver_alive
    }

    /// Every message ever accepted, in acceptance order.
    pub closed spec fn sent_log(self) -> Seq<M> {
        self.sent@
    }

    /// Every message ever handed to the consumer, in delivery order.
    pub closed spec fn delivered_log(self) -> Seq<M> {
        self.delivered@
    }

    /// A send can reach the consumer: some producing end exists and the
    /// consuming end has not been dropped.
    pub open spec fn open_for_send(self) -> bool {
        self.receiver_live() && self.producer_count() > 0
    }

    /// An enqueue attempt would be accepted right now.
    pub open spec fn can_accept(self) -> bool {
        self.open_for_send() && self.pending().len() < self.capacity_spec()
    }

    /// Well-formedness: the queue never exceeds its capacity, the capacity is
    /// at least one, and every accepted message is delivered exactly once, in
    /// order: the acceptance log is exactly the delivery log followed by the
    /// pending queue.
    pub open spec fn wf(self) -> bool {
        &&& self.capacity_spec() >= 1
        &&& self.pending().len() <= self.capacity_spec()
        &&& self.sent_log() == self.delivered_log() + self.pending()
    }

    /// Create a mailbox of the given capacity, with one producing end and the
    /// consuming end live, and nothing sent yet.
    pub fn new(capacity: usize) -> (m: Self)
        requires
            capacity >= 1,
        ensures
            m.wf(),
            m.pending() == Seq::<M>::empty(),
            m.capacity_spec() == capacity as nat,
            m.producer_count() == 1,
            m.receiver_live(),
            m.sent_log() == Seq::<M>::empty(),
            m.delivered_log() == Seq::<M>::empty(),
    {
        let m = Mailbox {
            queue: Vec::new(),
            capacity,
            producers: 1,
            receiver_alive: true,
            sent: Ghost(Seq::empty()),
            delivered: Ghost(Seq::empty()),
        };
        proof {
            assert(m.sent_log() =~= m.delivered_log() + m.pending());
        }
        m
    }

    /// Create a mailbox with the default capacity.
    pub fn with_default_capacity() -> (m: Self)
        ensures
            m.wf(),
            m.pending() == Seq::<M>::empty(),
            m.capacity_spec() == crate::DEFAULT_CAPACITY as nat,
            m.producer_count() == 1,
            m.receiver_live(),
            m.sent_log() == Seq::<M>::empty(),
            m.delivered_log() == Seq::<M>::empty(),
    {
        Self::new(crate::DEFAULT_CAPACITY)
    }

    /// Attempt to enqueue one message. The attempt is accepted exactly when a
    /// producing end and the consuming end both exist and the queue has room;
    /// a full queue reports `Full` (a sender would suspend), a mailbox whose
    /// consuming end is gone, or that no producing end can reach, reports
    /// `Closed`. A rejected message comes back to the caller untouched and
    /// the mailbox does not change.
    pub fn try_enqueue(&mut self, m: M) -> (r: EnqueueOutcome<M>)
        requires
            old(self).wf(),
        ensures
            final(self).wf(),
            final(self).capacity_spec() == old(self).capacity_spec(),
            final(self).producer_count() == old(self).producer_count(),
            final(self).receiver_live() == old(self).receiver_live(),
            final(self).delivered_log() == old(self).delivered_log(),
            r is Accepted <==> old(self).can_accept(),
            old(self).can_accept() ==> {
                &&& final(self).pending() == old(self).pending().push(m)
                &&& final(self).sent_log() == old(self).sent_log().push(m)
            },
            !old(self).open_for_send() ==> r == EnqueueOutcome::Closed(m),
            old(self).open_for_send() && !old(self).can_accept() ==> r == EnqueueOutcome::Full(m),
            !old(self).can_accept() ==> *final(self) == *old(self),
    {
        if !self.receiver_alive || self.producers == 0 {
            EnqueueOutcome::Closed(m)
        } else if self.queue.len() >= self.capacity {
            EnqueueOutcome::Full(m)
        } else {
            self.queue.push(m);
            proof {
                self.sent@ = self.sent@.push(m);
            }
            proof {
                assert(self.sent_log() =~= self.delivered_log() + self.pending());
            }
            EnqueueOutcome::Accepted
        }
    }

    /// Attempt to receive one message. The oldest pending message is handed
    /// out whenever one exists, even after every producing end is dropped
    /// (drain on close); an empty queue reports `Closed` once no producing
    /// end remains, and `Empty` (a receiver would suspend) otherwise.
    pub fn dequeue(&mut self) -> (r: ReceiveOutcome<M>)
        requires
            old(self).wf(),
            old(self).receiver_live(),
        ensures
            final(self).wf(),
            final(self).capacity_spec() == old(self).capacity_spec(),
            final(self).producer_count() == old(self).producer_count(),
            final(self).receiver_live(),
            final(self).sent_log() == old(self).sent_log(),
            old(self).pending().len() > 0 ==> {
                &&& r == ReceiveOutcome::Message(old(self).pending()[0])
                &&& final(self).pending() == old(self).pending().drop_first()
                &&& final(self).delivered_log()
                    == old(self).delivered_log().push(old(self).pending()[0])
            },
            old(self).pending().len() == 0 && old(self).producer_count() > 0 ==> {
                &&& r is Empty
                &&& *final(self) == *old(self)
            },
            old(self).pending().len() == 0 && old(self).producer_count() == 0 ==> {
                &&& r is Closed
                &&& *final(self) == *old(self)
            },
    {
        if self.queue.len() > 0 {
            let m = self.queue.remove(0);
            proof {
                self.delivered@ = self.delivered@.push(m);
            }
            proof {
                assert(self.pending() =~= old(self).pending().drop_first());
                assert(self.sent_log() =~= self.delivered_log() + self.pending());
            }
            ReceiveOutcome::Message(m)
        } else if self.producers > 0 {
            ReceiveOutcome::Empty
        } else {
            ReceiveOutcome::Closed
        }
    }

    /// Record that a producing end was cloned: one more handle can send.
    pub fn add_producer(&mut self)
        requires
            old(self).wf(),
            old(self).producer_count() < usize::MAX,
        ensures
            final(self).wf(),
            final(self).producer_count() == old(self).producer_count() + 1,
            final(self).pending() == old(self).pending(),
            final(self).capacity_spec() == old(self).capacity_spec(),
            final(self).receiver_live() == old(self).receiver_live(),
            final(self).sent_log() == old(self).sent_log(),
            final(self).delivered_log() == old(self).delivered_log(),
    {
        self.producers = self.producers + 1;
    }

    /// Record that a producing end was dropped: once none remains, no new
    /// message can ever be accepted, and the consumer sees `Closed` as soon
    /// as the queue drains.
    pub fn drop_producer(&mut self)
        requires
            old(self).wf(),
            old(self).producer_count() > 0,
        ensures
            final(self).wf(),
            final(self).producer_count() == old(self).producer_count() - 1,
            final(self).pending() == old(self).pending(),
            final(self).capacity_spec() == old(self).capacity_spec(),
            final(self).receiver_live() == old(self).receiver_live(),
            final(self).sent_log() == old(self).sent_log(),
            final(self).delivered_log() == old(self).delivered_log(),
    {
        self.producers = self.producers - 1;
    }

    /// Record that the unique consuming end was dropped: every later enqueue
    /// attempt reports `Closed`.
    pub fn drop_receiver(&mut self)
        requires
            old(self).wf(),
        ensures
            final(self).wf(),
            !final(self).receiver_live(),
            final(self).producer_count() == old(self).producer_count(),
            final(self).pending() == old(self).pending(),
            final(self).capacity_spec() == old(self).capacity_spec(),
            final(self).sent_log() == old(self).sent_log(),
            final(self).delivered_log() == old(self).delivered_log(),
    {
        self.receiver_alive = false;
    }

    /// Enqueue a whole burst of messages, in order. As long as the burst fits
    /// into the remaining room, every message of it is accepted: no send up
    /// to capacity ever suspends a sender or is rejected.
    pub fn enqueue_burst(&mut self, msgs: Vec<M>)
        requires
            old(self).wf(),
            old(self).open_for_send(),
            old(self).pending().len() + msgs@.len() <= old(self).capacity_spec(),
        ensures
            final(self).wf(),
            final(self).pending() == old(self).pending() + msgs@,
            final(self).sent_log() == old(self).sent_log() + msgs@,
            final(self).delivered_log() == old(self).delivered_log(),
            final(self).capacity_spec() == old(self).capacity_spec(),
            final(self).producer_count() == old(self).producer_count(),
            final(self).receiver_live() == old(self).receiver_live(),
    {
        let ghost p0 = old(self).pending();
        let ghost s0 = old(self).sent_log();
        let ghost m0 = msgs@;
        let mut rest = msgs;
        let ghost mut k: int = 0;
        proof {
            assert(m0.skip(0) =~= m0);
            assert(p0 + m0.take(0) =~= p0);
            assert(s0 + m0.take(0) =~= s0);
        }
        while rest.len() > 0
            invariant
                p0 == old(self).pending(),
                s0 == old(self).sent_log(),
                0 <= k <= m0.len(),
                rest@ == m0.skip(k),
                self.wf(),
                self.open_for_send(),
                self.pending() == p0 + m0.take(k),
                self.sent_log() == s0 + m0.take(k),
                self.delivered_log() == old(self).delivered_log(),
                self.capacity_spec() == old(self).capacity_spec(),
                self.producer_count() == old(self).producer_count(),
                self.receiver_live() == old(self).receiver_live(),
                p0.len() + m0.len() <= self.capacity_spec(),
            decreases rest@.len(),
        {
            let m = rest.remove(0);
            proof {
                assert(m0.skip(k)[0] == m0[k]);
                assert(self.pending().len() < self.capacity_spec());
            }
            let outcome = self.try_enqueue(m);
            proof {
                assert(outcome is Accepted);
                assert(m0.take(k + 1) =~= m0.take(k).push(m0[k]));
                assert(self.pending() =~= p0 + m0.take(k + 1));
                assert(self.sent_log() =~= s0 + m0.take(k + 1));
                assert(rest@ =~= m0.skip(k + 1));
                k = k + 1;
            }
        }
        proof {
            assert(k == m0.len());
            assert(m0.take(k) =~= m0);
        }
    }

    /// How many messages are pending.
    pub fn len(&self) -> (r: usize)
        ensures
            r == self.pending().len(),
    {
        self.queue.len()
    }

    /// The fixed capacity.
    pub fn capacity(&self) -> (r: usize)
        ensures
            r == self.capacity_spec(),
    {
        self.capacity
    }

    /// Whether an enqueue attempt would suspend a sender.
    pub fn is_full(&self) -> (r: bool)
        ensures
            r == (self.pending().len() >= self.capacity_spec()),
    {
        self.queue.len() >= self.capacity
    }
}

/// A mailbox that already holds `capacity` pending messages accepts nothing
/// more until the consumer makes room: the next enqueue attempt on it is not
/// accepted (the sender suspends on `Full`).
pub proof fn lemma_backpressure_boundary<M>(m: Mailbox<M>)
    requires
        m.wf(),
        m.open_for_send(),
        m.pending().len() == m.capacity_spec(),
    ensures
        !m.can_accept(),
{
}

/// Once every producing end is dropped, the mailbox can never accept another
/// message: any later enqueue attempt reports `Closed`.
pub proof fn lemma_closed_after_handles_dropped<M>(m: Mailbox<M>)
    requires
        m.wf(),
        m.producer_count() == 0,
    ensures
        !m.open_for_send(),
        !m.can_accept(),
{
}

/// No message is lost and none is duplicated: at every reachable state, the
/// messages accepted so far are exactly the messages already delivered
/// followed by the messages still pending, each exactly once and in order.
pub proof fn lemma_exactly_once<M>(m: Mailbox<M>)
    requires
        m.wf(),
    ensures
        m.sent_log() == m.delivered_log() + m.pending(),
{
}

/// Delivery order is send order: the messages the consumer has seen are
/// exactly the oldest accepted messages, in the order of their acceptance.
pub proof fn lemma_fifo_delivery<M>(m: Mailbox<M>)
    requires
        m.wf(),
    ensures
        m.delivered_log() == m.sent_log().take(m.delivered_log().len() as int),
{
    assert(m.delivered_log() =~= m.sent_log().take(m.delivered_log().len() as int));
}

} // verus!
