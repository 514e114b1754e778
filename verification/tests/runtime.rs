use toktor::actor::{ActorTask, Phase};
use toktor::counter::{Counter, CounterMsg};
use toktor::handle::{actor_turn, construct, Handle};
use toktor::mailbox::EnqueueOutcome;
use toktor::SendError;

#[test]
fn counter_replies_five_over_the_wire() {
    let (handle, mut rx) = Handle::with_default_consumer();
    for _ in 0..5 {
        assert!(handle.send(CounterMsg::Increment).is_ok());
    }
    let (tx, reply) = tokio::sync::oneshot::channel();
    assert!(handle.send(CounterMsg::GetAndReply(tx)).is_ok());
    drop(handle);
    let mut task = ActorTask::new(Counter::new(0));
    while actor_turn(&mut rx, &mut task) {}
    assert_eq!(reply.blocking_recv().unwrap(), 5);
    assert_eq!(task.phase(), Phase::Terminated);
    assert_eq!(task.state_ref().count(), 5);
}

#[test]
fn construct_yields_a_running_task() {
    let (handle, mut rx, mut task) = construct(Counter::new(3));
    assert_eq!(task.phase(), Phase::Running);
    assert_eq!(task.state_ref().count(), 3);
    assert!(handle.send(CounterMsg::Increment).is_ok());
    drop(handle);
    while actor_turn(&mut rx, &mut task) {}
    assert_eq!(task.state_ref().count(), 4);
    assert_eq!(task.phase(), Phase::Terminated);
}

#[test]
fn send_fails_closed_once_consumer_is_gone() {
    let (handle, rx) = Handle::<CounterMsg>::with_consumer(4);
    drop(rx);
    assert_eq!(handle.send(CounterMsg::Increment), Err(SendError::Closed));
    assert!(matches!(
        handle.try_send(CounterMsg::Increment),
        EnqueueOutcome::Closed(CounterMsg::Increment)
    ));
}

#[test]
fn try_send_reports_full_at_capacity() {
    let (handle, mut rx) = Handle::<u64>::with_default_consumer();
    for i in 0..8 {
        assert!(matches!(handle.try_send(i), EnqueueOutcome::Accepted));
    }
    // The ninth message finds the mailbox at capacity and comes back.
    assert!(matches!(handle.try_send(8), EnqueueOutcome::Full(8)));
    assert_eq!(rx.blocking_recv(), Some(0));
    assert!(matches!(handle.try_send(8), EnqueueOutcome::Accepted));
}

#[test]
fn clone_routes_to_the_same_actor() {
    let (handle, mut rx) = Handle::<CounterMsg>::with_consumer(4);
    let other = handle.clone();
    assert!(handle.send(CounterMsg::Increment).is_ok());
    drop(handle);
    // The clone keeps the mailbox open and still reaches the actor.
    assert!(other.send(CounterMsg::Increment).is_ok());
    drop(other);
    let mut task = ActorTask::new(Counter::new(0));
    while actor_turn(&mut rx, &mut task) {}
    assert_eq!(task.state_ref().count(), 2);
    assert_eq!(task.phase(), Phase::Terminated);
}

#[test]
fn concurrent_clones_deliver_all_messages_exactly_once() {
    let (handle, mut rx) = Handle::<CounterMsg>::with_consumer(128);
    let other = handle.clone();
    let rt = tokio::runtime::Runtime::new().unwrap();
    rt.block_on(async move {
        let a = tokio::spawn(async move {
            for _ in 0..50 {
                handle.sender.send(CounterMsg::Increment).await.unwrap();
            }
        });
        let b = tokio::spawn(async move {
            for _ in 0..50 {
                other.sender.send(CounterMsg::Increment).await.unwrap();
            }
        });
        a.await.unwrap();
        b.await.unwrap();
    });
    // Both clones were dropped inside the runtime; the actor drains the
    // hundred messages, each exactly once, then terminates.
    let mut task = ActorTask::new(Counter::new(0));
    while actor_turn(&mut rx, &mut task) {}
    assert_eq!(task.state_ref().count(), 100);
    assert_eq!(task.phase(), Phase::Terminated);
}

#[test]
fn drains_enqueued_messages_after_handles_drop() {
    let (handle, mut rx) = Handle::<CounterMsg>::with_consumer(4);
    assert!(handle.send(CounterMsg::Increment).is_ok());
    assert!(handle.send(CounterMsg::Increment).is_ok());
    drop(handle);
    let mut task = ActorTask::new(Counter::new(0));
    // First two turns each handle one pending message; the third sees the
    // closed, drained mailbox and terminates the task.
    assert!(actor_turn(&mut rx, &mut task));
    assert!(actor_turn(&mut rx, &mut task));
    assert!(!actor_turn(&mut rx, &mut task));
    assert_eq!(task.state_ref().count(), 2);
    assert_eq!(task.phase(), Phase::Terminated);
}

#[test]
fn handling_failure_stops_the_turns() {
    let (handle, mut rx) = Handle::<CounterMsg>::with_consumer(4);
    assert!(handle.send(CounterMsg::Increment).is_ok());
    assert!(handle.send(CounterMsg::Increment).is_ok());
    drop(handle);
    let mut task = ActorTask::new(Counter::new(u64::MAX));
    // The first increment overflows the counter: fatal to the instance.
    assert!(!actor_turn(&mut rx, &mut task));
    assert_eq!(task.phase(), Phase::Terminated);
    assert_eq!(task.state_ref().count(), u64::MAX);
}
