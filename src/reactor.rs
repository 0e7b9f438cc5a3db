use std::collections::HashMap;
use vstd::prelude::*;

verus! {

broadcast use vstd::std_specs::hash::group_hash_axioms;

/// Identity of a task; a waker is the capability to re-poll that task.
pub type TaskId = u64;

/// Direction of readiness that a computation waits for.
#[derive(Clone, Copy, Debug, PartialEq, Eq, Structural)]
pub enum Interest {
    Readable,
    Writable,
}

/// Failures of the readiness reactor.
#[derive(Clone, Copy, Debug, PartialEq, Eq, Structural)]
pub enum ReactorError {
    /// A waker is already pending for this descriptor and direction.
    DoubleRegistration,
}

/// Maps (descriptor, direction) to the one pending waker for that pair.
pub struct Reactor {
    readable: HashMap<i32, TaskId>,
    writable: HashMap<i32, TaskId>,
}

impl Reactor {
    /// Pending wakers waiting for the descriptor to become readable.
    pub closed spec fn readable_view(&self) -> Map<i32, TaskId> {
        self.readable@
    }

    /// Pending wakers waiting for the descriptor to become writable.
    pub closed spec fn writable_view(&self) -> Map<i32, TaskId> {
        self.writable@
    }

    /// The table of pending wakers for one direction.
    pub open spec fn table(&self, dir: Interest) -> Map<i32, TaskId> {
        match dir {
            Interest::Readable => self.readable_view(),
            Interest::Writable => self.writable_view(),
        }
    }

    /// The waker pending for `(fd, dir)`, if any.
    pub open spec fn pending(&self, fd: i32, dir: Interest) -> Option<TaskId> {
        if self.table(dir).contains_key(fd) {
            Some(self.table(dir)[fd])
        } else {
            None
        }
    }

    /// A reactor with no pending interest.
    pub fn new() -> (r: Reactor)
        ensures
            r.readable_view() == Map::<i32, TaskId>::empty(),
            r.writable_view() == Map::<i32, TaskId>::empty(),
    {
        Reactor { readable: HashMap::new(), writable: HashMap::new() }
    }

    /// Installs `task` as the waker for `(fd, dir)`. Fails, leaving the
    /// table unchanged, when a waker is already pending for that pair.
    pub fn register(&mut self, fd: i32, dir: Interest, task: TaskId) -> (r: Result<(), ReactorError>)
        ensures
            r is Err <==> old(self).table(dir).contains_key(fd),
            r is Err ==> *final(self) == *old(self),
            r is Ok ==> final(self).table(dir) == old(self).table(dir).insert(fd, task),
            r is Ok ==> final(self).table(flip(dir)) == old(self).table(flip(dir)),
    {
        match dir {
            Interest::Readable => {
                if self.readable.contains_key(&fd) {
                    return Err(ReactorError::DoubleRegistration);
                }
                self.readable.insert(fd, task);
            },
            Interest::Writable => {
                if self.writable.contains_key(&fd) {
                    return Err(ReactorError::DoubleRegistration);
                }
                self.writable.insert(fd, task);
            },
        }
        Ok(())
    }

    /// Takes the waker pending for `(fd, dir)` out of the table and hands
    /// it back to be fired. A readiness report with nothing pending gives
    /// `None` and changes nothing.
    pub fn notify(&mut self, fd: i32, dir: Interest) -> (r: Option<TaskId>)
        ensures
            r == old(self).pending(fd, dir),
            final(self).table(dir) == old(self).table(dir).remove(fd),
            final(self).table(flip(dir)) == old(self).table(flip(dir)),
    {
        match dir {
            Interest::Readable => self.readable.remove(&fd),
            Interest::Writable => self.writable.remove(&fd),
        }
    }
}

/// The other direction.
pub open spec fn flip(dir: Interest) -> Interest {
    match dir {
        Interest::Readable => Interest::Writable,
        Interest::Writable => Interest::Readable,
    }
}

} // verus!
