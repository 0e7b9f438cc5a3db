use crate::executor::{wake_step, with_state, Executor, WakeAction};
use crate::reactor::{flip, Interest, Reactor, TaskId};
use vstd::prelude::*;

verus! {

/// What a readiness report leads to: the task whose waker fired and what
/// its wake asks for, or `None` when nothing was pending.
pub open spec fn ready_spec(reactor: Reactor, executor: Executor, fd: i32, dir: Interest) -> Option<
    (TaskId, WakeAction),
> {
    match reactor.pending(fd, dir) {
        Some(id) => Some((id, wake_step(executor.state_of(id)).0)),
        None => None,
    }
}

/// Reports readiness of `fd` in direction `dir`: the pending waker, if
/// any, leaves the reactor and wakes its task. A spurious or late report
/// changes nothing.
pub fn on_fd_ready(reactor: &mut Reactor, executor: &mut Executor, fd: i32, dir: Interest) -> (r:
    Option<(TaskId, WakeAction)>)
    requires
        old(executor).wf(),
    ensures
        final(executor).wf(),
        r == ready_spec(*old(reactor), *old(executor), fd, dir),
        final(reactor).table(dir) == old(reactor).table(dir).remove(fd),
        final(reactor).table(flip(dir)) == old(reactor).table(flip(dir)),
        final(executor).completed() == old(executor).completed(),
        final(executor).next_id_view() == old(executor).next_id_view(),
        match old(reactor).pending(fd, dir) {
            Some(id) => final(executor).tasks_view() == with_state(
                old(executor).tasks_view(),
                id,
                wake_step(old(executor).state_of(id)).1,
            ),
            None => final(executor).tasks_view() == old(executor).tasks_view(),
        },
{
    match reactor.notify(fd, dir) {
        Some(id) => {
            let action = executor.wake(id);
            Some((id, action))
        },
        None => None,
    }
}

/// Entry point for the host loop: `fd` became readable.
pub fn on_fd_read_ready(reactor: &mut Reactor, executor: &mut Executor, fd: i32) -> (r: Option<
    (TaskId, WakeAction),
>)
    requires
        old(executor).wf(),
    ensures
        final(executor).wf(),
        r == ready_spec(*old(reactor), *old(executor), fd, Interest::Readable),
        final(reactor).readable_view() == old(reactor).readable_view().remove(fd),
        final(reactor).writable_view() == old(reactor).writable_view(),
        final(executor).completed() == old(executor).completed(),
        final(executor).next_id_view() == old(executor).next_id_view(),
        match old(reactor).pending(fd, Interest::Readable) {
            Some(id) => final(executor).tasks_view() == with_state(
                old(executor).tasks_view(),
                id,
                wake_step(old(executor).state_of(id)).1,
            ),
            None => final(executor).tasks_view() == old(executor).tasks_view(),
        },
{
    on_fd_ready(reactor, executor, fd, Interest::Readable)
}

/// Entry point for the host loop: `fd` became writable.
pub fn on_fd_write_ready(reactor: &mut Reactor, executor: &mut Executor, fd: i32) -> (r: Option<
    (TaskId, WakeAction),
>)
    requires
        old(executor).wf(),
    ensures
        final(executor).wf(),
        r == ready_spec(*old(reactor), *old(executor), fd, Interest::Writable),
        final(reactor).writable_view() == old(reactor).writable_view().remove(fd),
        final(reactor).readable_view() == old(reactor).readable_view(),
        final(executor).completed() == old(executor).completed(),
        final(executor).next_id_view() == old(executor).next_id_view(),
        match old(reactor).pending(fd, Interest::Writable) {
            Some(id) => final(executor).tasks_view() == with_state(
                old(executor).tasks_view(),
                id,
                wake_step(old(executor).state_of(id)).1,
            ),
            None => final(executor).tasks_view() == old(executor).tasks_view(),
        },
{
    on_fd_ready(reactor, executor, fd, Interest::Writable)
}

} // verus!
