use toktor::actor::{pump, ActorTask, Phase};
use toktor::counter::{Counter, CounterMsg};
use toktor::mailbox::{EnqueueOutcome, Mailbox, ReceiveOutcome};

#[test]
fn fifo_single_producer() {
    let mut mb: Mailbox<u64> = Mailbox::new(4);
    assert!(matches!(mb.try_enqueue(10), EnqueueOutcome::Accepted));
    assert!(matches!(mb.try_enqueue(20), EnqueueOutcome::Accepted));
    assert!(matches!(mb.try_enqueue(30), EnqueueOutcome::Accepted));
    assert!(matches!(mb.dequeue(), ReceiveOutcome::Message(10)));
    assert!(matches!(mb.dequeue(), ReceiveOutcome::Message(20)));
    assert!(matches!(mb.dequeue(), ReceiveOutcome::Message(30)));
    assert!(matches!(mb.dequeue(), ReceiveOutcome::Empty));
}

#[test]
fn backpressure_at_default_capacity() {
    let mut mb: Mailbox<u64> = Mailbox::with_default_capacity();
    assert_eq!(mb.capacity(), 8);
    for i in 0..8 {
        assert!(matches!(mb.try_enqueue(i), EnqueueOutcome::Accepted));
    }
    assert!(mb.is_full());
    // The ninth send would suspend a real sender: the queue is at capacity.
    assert!(matches!(mb.try_enqueue(8), EnqueueOutcome::Full(8)));
    // After the consumer takes one message there is room again.
    assert!(matches!(mb.dequeue(), ReceiveOutcome::Message(0)));
    assert!(matches!(mb.try_enqueue(8), EnqueueOutcome::Accepted));
}

#[test]
fn burst_up_to_capacity_is_accepted() {
    let mut mb: Mailbox<u64> = Mailbox::new(8);
    mb.enqueue_burst(vec![1, 2, 3, 4, 5, 6, 7, 8]);
    assert_eq!(mb.len(), 8);
    assert!(matches!(mb.try_enqueue(9), EnqueueOutcome::Full(9)));
    assert!(matches!(mb.dequeue(), ReceiveOutcome::Message(1)));
}

#[test]
fn closed_when_producers_are_gone() {
    let mut mb: Mailbox<u64> = Mailbox::new(4);
    assert!(matches!(mb.try_enqueue(1), EnqueueOutcome::Accepted));
    mb.drop_producer();
    // A synthetic enqueue attempt on a mailbox with no producing end fails.
    assert!(matches!(mb.try_enqueue(2), EnqueueOutcome::Closed(2)));
    // The pending message still drains before the closed indication.
    assert!(matches!(mb.dequeue(), ReceiveOutcome::Message(1)));
    assert!(matches!(mb.dequeue(), ReceiveOutcome::Closed));
}

#[test]
fn closed_when_receiver_is_gone() {
    let mut mb: Mailbox<u64> = Mailbox::new(4);
    mb.drop_receiver();
    assert!(matches!(mb.try_enqueue(7), EnqueueOutcome::Closed(7)));
}

#[test]
fn clone_and_drop_producers() {
    let mut mb: Mailbox<u64> = Mailbox::new(4);
    mb.add_producer();
    mb.drop_producer();
    // One producing end remains: the mailbox is still open.
    assert!(matches!(mb.try_enqueue(1), EnqueueOutcome::Accepted));
    mb.drop_producer();
    assert!(matches!(mb.try_enqueue(2), EnqueueOutcome::Closed(2)));
}

#[test]
fn two_interleaved_producers_deliver_exactly_once() {
    let mut mb: Mailbox<CounterMsg> = Mailbox::new(8);
    mb.add_producer();
    // Arrival order of two producers interleaves; every accepted message is
    // delivered exactly once regardless.
    for _ in 0..3 {
        assert!(matches!(mb.try_enqueue(CounterMsg::Increment), EnqueueOutcome::Accepted));
        assert!(matches!(mb.try_enqueue(CounterMsg::Increment), EnqueueOutcome::Accepted));
    }
    mb.drop_producer();
    mb.drop_producer();
    let mut task = ActorTask::new(Counter::new(0));
    pump(&mut mb, &mut task);
    assert_eq!(task.state_ref().count(), 6);
    assert_eq!(task.phase(), Phase::Terminated);
}

#[test]
fn counter_replies_five_through_slot() {
    let mut mb: Mailbox<CounterMsg> = Mailbox::with_default_capacity();
    for _ in 0..5 {
        assert!(matches!(mb.try_enqueue(CounterMsg::Increment), EnqueueOutcome::Accepted));
    }
    let (tx, rx) = tokio::sync::oneshot::channel();
    assert!(matches!(mb.try_enqueue(CounterMsg::GetAndReply(tx)), EnqueueOutcome::Accepted));
    let mut task = ActorTask::new(Counter::new(0));
    pump(&mut mb, &mut task);
    assert_eq!(rx.blocking_recv().unwrap(), 5);
    // Producers still exist, so the task keeps running.
    assert_eq!(task.phase(), Phase::Running);
}

#[test]
fn query_replies_with_the_current_count() {
    let mut mb: Mailbox<CounterMsg> = Mailbox::new(4);
    let (tx, rx) = tokio::sync::oneshot::channel();
    assert!(matches!(mb.try_enqueue(CounterMsg::GetAndReply(tx)), EnqueueOutcome::Accepted));
    // No increment was ever sent: the reply is the initial count itself.
    let mut task = ActorTask::new(Counter::new(41));
    pump(&mut mb, &mut task);
    assert_eq!(rx.blocking_recv().unwrap(), 41);
}

#[test]
fn independent_actors_do_not_share_messages() {
    let mut mb_a: Mailbox<CounterMsg> = Mailbox::new(4);
    let mut mb_b: Mailbox<CounterMsg> = Mailbox::new(4);
    let mut task_a = ActorTask::new(Counter::new(0));
    let mut task_b = ActorTask::new(Counter::new(100));
    assert!(matches!(mb_a.try_enqueue(CounterMsg::Increment), EnqueueOutcome::Accepted));
    assert!(matches!(mb_a.try_enqueue(CounterMsg::Increment), EnqueueOutcome::Accepted));
    pump(&mut mb_a, &mut task_a);
    pump(&mut mb_b, &mut task_b);
    assert_eq!(task_a.state_ref().count(), 2);
    assert_eq!(task_b.state_ref().count(), 100);
}

#[test]
fn drains_pending_messages_before_terminating() {
    let mut mb: Mailbox<CounterMsg> = Mailbox::new(4);
    assert!(matches!(mb.try_enqueue(CounterMsg::Increment), EnqueueOutcome::Accepted));
    assert!(matches!(mb.try_enqueue(CounterMsg::Increment), EnqueueOutcome::Accepted));
    mb.drop_producer();
    let mut task = ActorTask::new(Counter::new(0));
    pump(&mut mb, &mut task);
    // Both messages enqueued before the close were still processed.
    assert_eq!(task.state_ref().count(), 2);
    assert_eq!(task.phase(), Phase::Terminated);
    assert_eq!(mb.len(), 0);
}

#[test]
fn handling_failure_terminates_the_actor() {
    let mut mb: Mailbox<CounterMsg> = Mailbox::new(4);
    assert!(matches!(mb.try_enqueue(CounterMsg::Increment), EnqueueOutcome::Accepted));
    assert!(matches!(mb.try_enqueue(CounterMsg::Increment), EnqueueOutcome::Accepted));
    let mut task = ActorTask::new(Counter::new(u64::MAX));
    pump(&mut mb, &mut task);
    // The first increment overflows: fatal to this actor instance, and the
    // remaining message is discarded unprocessed.
    assert_eq!(task.phase(), Phase::Terminated);
    assert_eq!(task.state_ref().count(), u64::MAX);
    assert_eq!(mb.len(), 1);
}

#[test]
fn counter_state_accessors() {
    let c = Counter::new(41);
    assert_eq!(c.count(), 41);
    assert_eq!(c.count, 41);
    let task = ActorTask::new(Counter::new(7));
    assert_eq!(task.phase(), Phase::Running);
    assert_eq!(task.state_ref().count(), 7);
}
