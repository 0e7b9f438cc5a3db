use slonik_proto::bridge::{on_fd_read_ready, on_fd_write_ready};
use slonik_proto::executor::{AfterPoll, Executor, WakeAction};
use slonik_proto::reactor::{Interest, Reactor, ReactorError};
use slonik_proto::timer::{is_due, TimerEntry, TimerQueue};

#[test]
fn register_then_notify_fires_once() {
    let mut reactor = Reactor::new();
    assert_eq!(reactor.register(3, Interest::Readable, 11), Ok(()));
    assert_eq!(reactor.notify(3, Interest::Readable), Some(11));
    assert_eq!(reactor.notify(3, Interest::Readable), None);
}

#[test]
fn notify_other_direction_leaves_entry() {
    let mut reactor = Reactor::new();
    assert_eq!(reactor.register(3, Interest::Readable, 11), Ok(()));
    assert_eq!(reactor.notify(3, Interest::Writable), None);
    assert_eq!(reactor.notify(3, Interest::Readable), Some(11));
}

#[test]
fn double_registration_is_refused() {
    let mut reactor = Reactor::new();
    assert_eq!(reactor.register(5, Interest::Writable, 1), Ok(()));
    assert_eq!(
        reactor.register(5, Interest::Writable, 2),
        Err(ReactorError::DoubleRegistration)
    );
    // the first waker is still the pending one
    assert_eq!(reactor.notify(5, Interest::Writable), Some(1));
    // both directions of one descriptor may be pending at once
    assert_eq!(reactor.register(5, Interest::Readable, 3), Ok(()));
    assert_eq!(reactor.register(5, Interest::Writable, 4), Ok(()));
}

#[test]
fn spurious_notify_is_a_no_op() {
    let mut reactor = Reactor::new();
    assert_eq!(reactor.notify(42, Interest::Readable), None);
    assert_eq!(reactor.register(42, Interest::Readable, 9), Ok(()));
    assert_eq!(reactor.notify(42, Interest::Readable), Some(9));
}

#[test]
fn spawn_immediately_ready_completes_in_spawn() {
    let mut executor = Executor::new();
    let mut reactor = Reactor::new();
    let mut delivered: Vec<u32> = Vec::new();
    let id = executor.spawn().unwrap();
    // first poll, synchronously inside spawn: the computation returns 42
    let value: Option<u32> = Some(42);
    match executor.finish_poll(id, value.is_some()) {
        AfterPoll::Complete => delivered.push(value.unwrap()),
        other => panic!("unexpected {:?}", other),
    }
    assert_eq!(delivered, vec![42]);
    assert!(!executor.is_live(id));
    assert_eq!(executor.live_count(), 0);
    // no reactor interaction took place
    assert_eq!(reactor.notify(0, Interest::Readable), None);
}

#[test]
fn completion_is_delivered_once() {
    let mut executor = Executor::new();
    let id = executor.spawn().unwrap();
    assert_eq!(executor.finish_poll(id, true), AfterPoll::Complete);
    assert_eq!(executor.finish_poll(id, true), AfterPoll::NotPolling);
    assert_eq!(executor.wake(id), WakeAction::Ignored);
    let next = executor.spawn().unwrap();
    assert_ne!(next, id);
}

#[test]
fn pending_poll_never_completes() {
    let mut executor = Executor::new();
    let id = executor.spawn().unwrap();
    assert_eq!(executor.finish_poll(id, false), AfterPoll::Suspend);
    assert!(executor.is_live(id));
    // a poll report while no poll runs changes nothing
    assert_eq!(executor.finish_poll(id, true), AfterPoll::NotPolling);
    assert!(executor.is_live(id));
}

#[test]
fn reentrant_wake_is_deferred() {
    let mut executor = Executor::new();
    let id = executor.spawn().unwrap();
    assert_eq!(executor.finish_poll(id, false), AfterPoll::Suspend);
    assert_eq!(executor.wake(id), WakeAction::Poll);
    // notify from inside the running poll: no second, overlapping poll
    assert_eq!(executor.wake(id), WakeAction::Deferred);
    assert_eq!(executor.wake(id), WakeAction::Deferred);
    assert_eq!(executor.finish_poll(id, false), AfterPoll::PollAgain);
    assert_eq!(executor.finish_poll(id, false), AfterPoll::Suspend);
    assert_eq!(executor.wake(id), WakeAction::Poll);
    assert_eq!(executor.finish_poll(id, true), AfterPoll::Complete);
}

#[test]
fn timer_fires_once_after_deadline() {
    let mut executor = Executor::new();
    let mut timers = TimerQueue::new();
    let id = executor.spawn().unwrap();
    assert_eq!(timers.schedule(0, 2000, id), 2000);
    assert_eq!(executor.finish_poll(id, false), AfterPoll::Suspend);
    assert_eq!(timers.next_deadline(), Some(2000));
    assert!(timers.fire_due(1999).is_empty());
    assert_eq!(timers.len(), 1);
    let fired = timers.fire_due(2000);
    assert_eq!(fired, vec![TimerEntry { deadline: 2000, task: id }]);
    assert_eq!(executor.wake(fired[0].task), WakeAction::Poll);
    assert_eq!(executor.finish_poll(id, true), AfterPoll::Complete);
    assert!(timers.fire_due(10_000).is_empty());
    assert_eq!(timers.next_deadline(), None);
}

#[test]
fn timer_fires_due_entries_in_order() {
    let mut timers = TimerQueue::new();
    assert_eq!(timers.schedule(10, 5, 1), 15);
    assert_eq!(timers.schedule(10, 50, 2), 60);
    assert_eq!(timers.schedule(12, 3, 3), 15);
    assert_eq!(timers.next_deadline(), Some(15));
    let fired = timers.fire_due(20);
    assert_eq!(
        fired,
        vec![
            TimerEntry { deadline: 15, task: 1 },
            TimerEntry { deadline: 15, task: 3 }
        ]
    );
    assert_eq!(timers.next_deadline(), Some(60));
    assert_eq!(timers.len(), 1);
}

#[test]
fn timer_deadline_saturates() {
    let mut timers = TimerQueue::new();
    assert_eq!(timers.schedule(u64::MAX - 1, 10, 4), u64::MAX);
    assert!(timers.fire_due(u64::MAX - 1).is_empty());
    assert_eq!(timers.fire_due(u64::MAX).len(), 1);
}

#[test]
fn read_ready_resumes_task_once() {
    let mut executor = Executor::new();
    let mut reactor = Reactor::new();
    let id = executor.spawn().unwrap();
    // during its first poll the task waits for descriptor 7 to be readable
    assert_eq!(reactor.register(7, Interest::Readable, id), Ok(()));
    assert_eq!(executor.finish_poll(id, false), AfterPoll::Suspend);
    assert_eq!(
        on_fd_read_ready(&mut reactor, &mut executor, 7),
        Some((id, WakeAction::Poll))
    );
    let value: Option<i32> = Some(5);
    assert_eq!(executor.finish_poll(id, value.is_some()), AfterPoll::Complete);
    assert_eq!(on_fd_read_ready(&mut reactor, &mut executor, 7), None);
}

#[test]
fn write_ready_only_wakes_writers() {
    let mut executor = Executor::new();
    let mut reactor = Reactor::new();
    let id = executor.spawn().unwrap();
    assert_eq!(reactor.register(8, Interest::Writable, id), Ok(()));
    assert_eq!(executor.finish_poll(id, false), AfterPoll::Suspend);
    assert_eq!(on_fd_read_ready(&mut reactor, &mut executor, 8), None);
    assert_eq!(
        on_fd_write_ready(&mut reactor, &mut executor, 8),
        Some((id, WakeAction::Poll))
    );
    assert_eq!(on_fd_write_ready(&mut reactor, &mut executor, 8), None);
}

#[test]
fn ready_report_for_completed_task_is_ignored() {
    let mut executor = Executor::new();
    let mut reactor = Reactor::new();
    let id = executor.spawn().unwrap();
    assert_eq!(reactor.register(9, Interest::Readable, id), Ok(()));
    assert_eq!(executor.finish_poll(id, true), AfterPoll::Complete);
    assert_eq!(
        on_fd_read_ready(&mut reactor, &mut executor, 9),
        Some((id, WakeAction::Ignored))
    );
}

#[test]
fn notify_from_inside_poll_is_deferred() {
    let mut executor = Executor::new();
    let mut reactor = Reactor::new();
    let id = executor.spawn().unwrap();
    // while its first poll runs, the task registers interest and the host
    // reports readiness at once, from inside that poll
    assert_eq!(reactor.register(4, Interest::Readable, id), Ok(()));
    assert_eq!(
        on_fd_read_ready(&mut reactor, &mut executor, 4),
        Some((id, WakeAction::Deferred))
    );
    // the running poll returns pending: the task is polled again, after it
    assert_eq!(executor.finish_poll(id, false), AfterPoll::PollAgain);
    assert_eq!(executor.finish_poll(id, true), AfterPoll::Complete);
}

#[test]
fn timer_entry_is_due_from_its_deadline() {
    let entry = TimerEntry { deadline: 2000, task: 1 };
    assert!(!is_due(entry, 1999));
    assert!(is_due(entry, 2000));
    assert!(is_due(entry, 2001));
}
