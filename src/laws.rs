use crate::executor::{poll_step, wake_step, AfterPoll, Executor, TaskState, WakeAction};
use crate::pool::PoolLease;
use crate::reactor::{Interest, Reactor, TaskId};
use crate::stream::{step_spec, IoOutcome, StreamStep};
use crate::bridge::ready_spec;
use crate::timer::{deadline_after, due_at, waiting_at, TimerEntry};
use vstd::prelude::*;

verus! {

/// A `register(fd, dir, w)` followed by `notify(fd, dir)` fires `w`, once:
/// the notify hands `w` back and removes the entry, so the table is as it
/// was before the register, and a second notify with no register between
/// finds nothing and changes nothing.
pub proof fn lemma_register_then_notify(
    r0: Reactor,
    r1: Reactor,
    r2: Reactor,
    r3: Reactor,
    fd: i32,
    dir: Interest,
    w: TaskId,
)
    requires
        !r0.table(dir).contains_key(fd),
        r1.table(dir) == r0.table(dir).insert(fd, w),
        r2.table(dir) == r1.table(dir).remove(fd),
        r3.table(dir) == r2.table(dir).remove(fd),
    ensures
        r1.pending(fd, dir) == Some(w),
        r2.table(dir) == r0.table(dir),
        r2.pending(fd, dir) is None,
        r3.table(dir) == r2.table(dir),
{
    assert(r2.table(dir) =~= r0.table(dir));
    assert(r3.table(dir) =~= r2.table(dir));
}

/// A task completes at most once, and only with a value: a poll that did
/// not produce the terminal value never completes the task, and once a
/// task has completed neither a later poll report nor a later wake of it
/// does anything.
pub proof fn lemma_completes_once(e: Executor, id: TaskId, ready: bool, s: Option<TaskState>)
    requires
        e.wf(),
    ensures
        poll_step(s, false).0 != AfterPoll::Complete,
        e.completed().contains(id) ==> poll_step(e.state_of(id), ready).0 == AfterPoll::NotPolling,
        e.completed().contains(id) ==> wake_step(e.state_of(id)).0 == WakeAction::Ignored,
        s == Some(TaskState::Polling) || s == Some(TaskState::Rewoken) ==> poll_step(s, true) == (
        AfterPoll::Complete,
        None::<TaskState>,
        ),
{
    e.lemma_wf(id);
}

/// Polls of one task never overlap: a wake starts a poll only when none is
/// running, a wake during a running poll (also from inside that poll) is
/// deferred, and a poll that returns after such a wake is followed by
/// exactly one new poll.
pub proof fn lemma_polls_never_overlap(s: Option<TaskState>)
    ensures
        wake_step(s).0 == WakeAction::Poll ==> s == Some(TaskState::Suspended),
        wake_step(s).0 == WakeAction::Poll ==> wake_step(wake_step(s).1).0 == WakeAction::Deferred,
        s == Some(TaskState::Polling) || s == Some(TaskState::Rewoken) ==> wake_step(s) == (
        WakeAction::Deferred,
        Some(TaskState::Rewoken),
        ),
        poll_step(Some(TaskState::Rewoken), false) == (AfterPoll::PollAgain, Some(TaskState::Polling)),
{
}

/// A read that moves fewer bytes than its buffer holds, zero included,
/// completes with that count; it is no error and does not suspend.
pub proof fn lemma_short_read_completes(n: usize)
    ensures
        step_spec(Interest::Readable, IoOutcome::Done(n)) == StreamStep::Complete(n),
{
}

/// A timer entry fires exactly once: while the clock is before its
/// deadline it stays and is not fired; from the deadline on, the firing
/// pass takes it out, so no later pass fires it again.
pub proof fn lemma_timer_fires_once(q: Seq<TimerEntry>, e: TimerEntry, now: u64)
    requires
        q.contains(e),
    ensures
        now < e.deadline ==> !q.filter(due_at(now)).contains(e) && q.filter(waiting_at(now)).contains(e),
        e.deadline <= now ==> q.filter(due_at(now)).contains(e) && !q.filter(waiting_at(now)).contains(e),
{
    broadcast use vstd::seq_lib::group_filter_ensures;

    let i = choose|i: int| 0 <= i < q.len() && q[i] == e;
    if now < e.deadline {
        if q.filter(due_at(now)).contains(e) {
            let j = choose|j: int| 0 <= j < q.filter(due_at(now)).len() && q.filter(due_at(now))[j] == e;
            assert(due_at(now)(q.filter(due_at(now))[j]));
        }
        assert(waiting_at(now)(q[i]));
    } else {
        if q.filter(waiting_at(now)).contains(e) {
            let j = choose|j: int|
                0 <= j < q.filter(waiting_at(now)).len() && q.filter(waiting_at(now))[j] == e;
            assert(waiting_at(now)(q.filter(waiting_at(now))[j]));
        }
        assert(due_at(now)(q[i]));
    }
}

/// With two tasks holding the pool handle, one of them letting go leaves
/// the handle valid for the other, whether or not the owner still holds it.
pub proof fn lemma_shared_pool_outlives_one_task(before: PoolLease, after: PoolLease)
    requires
        before.tasks_view() >= 2,
        after.tasks_view() + 1 == before.tasks_view(),
    ensures
        after.valid(),
        after.tasks_view() >= 1,
{
}

/// A readiness report for a pair on which a suspended task waits resumes
/// that task: its waker is handed back asking for a poll, the task moves to
/// `Polling`, a poll that produces the value completes it and removes it,
/// and a second report for the same pair, with no register between, finds
/// nothing whatever the executor holds.
pub proof fn lemma_ready_report_resumes_task(
    r0: Reactor,
    r1: Reactor,
    e0: Executor,
    fd: i32,
    dir: Interest,
    id: TaskId,
)
    requires
        r0.pending(fd, dir) == Some(id),
        e0.state_of(id) == Some(TaskState::Suspended),
        r1.table(dir) == r0.table(dir).remove(fd),
    ensures
        ready_spec(r0, e0, fd, dir) == Some((id, WakeAction::Poll)),
        wake_step(e0.state_of(id)).1 == Some(TaskState::Polling),
        poll_step(wake_step(e0.state_of(id)).1, true) == (AfterPoll::Complete, None::<TaskState>),
        r1.pending(fd, dir) is None,
        forall|e: Executor| ready_spec(r1, e, fd, dir) is None,
{
}

/// A timer wait of `duration` begun at `now` is not fired at any time
/// before `now + duration`, and is fired from then on, as long as that
/// sum stays within the clock.
pub proof fn lemma_timer_waits_full_duration(now: u64, duration: u64, task: TaskId, t: u64)
    requires
        now as int + duration as int <= u64::MAX as int,
    ensures
        deadline_after(now, duration) == now + duration,
        t < now + duration ==> !due_at(t)(TimerEntry { deadline: deadline_after(now, duration), task }),
        t >= now + duration ==> due_at(t)(TimerEntry { deadline: deadline_after(now, duration), task }),
{
}

} // verus!
