//! An example actor: an integer counter that understands an increment
//! message and a query message carrying a one-shot reply slot. Callers that
//! need a result embed such a slot in their message; handling outcomes are
//! otherwise never surfaced to senders.

use vstd::prelude::*;
use crate::ActorFailure;
use crate::actor::Actor;
use crate::actor::Reply;

verus! {

/// The counter actor's message set.
pub enum CounterMsg {
    /// Add one to the count.
    Increment,
    /// Send the current count through the carried reply slot.
    GetAndReply(tokio::sync::oneshot::Sender<u64>),
}

/// The counter actor's state: exclusively owned and mutated by its one task.
pub struct Counter {
    /// The current count.
    pub count: u64,
}

impl Counter {
    /// A counter starting at `start`.
    pub fn new(start: u64) -> (c: Self)
        ensures
            c.count == start,
    {
        Counter { count: start }
    }

    /// The current count.
    pub fn count(&self) -> (r: u64)
        ensures
            r == self.count,
    {
        self.count
    }
}

impl Actor for Counter {
    type Msg = CounterMsg;

    type ReplyVal = u64;

    /// Increment adds one; a query leaves the count alone.
    open spec fn next(self, m: CounterMsg) -> Counter {
        match m {
            CounterMsg::Increment => Counter { count: (self.count + 1) as u64 },
            CounterMsg::GetAndReply(_) => self,
        }
    }

    /// Handling fails only when an increment would overflow the count.
    open spec fn failing(self, m: CounterMsg) -> bool {
        m is Increment && self.count == u64::MAX
    }

    /// A query owes its slot the current count; an increment owes nothing.
    open spec fn reply_of(self, m: CounterMsg) -> Option<Reply<u64>> {
        match m {
            CounterMsg::Increment => None,
            CounterMsg::GetAndReply(slot) => Some((slot, self.count)),
        }
    }

    fn on_message(&mut self, m: CounterMsg) -> (r: Result<Option<Reply<u64>>, ActorFailure>) {
        match m {
            CounterMsg::Increment => {
                if self.count == u64::MAX {
                    Err(ActorFailure)
                } else {
                    self.count = self.count + 1;
                    Ok(None)
                }
            },
            CounterMsg::GetAndReply(slot) => Ok(Some((slot, self.count))),
        }
    }
}

} // verus!
