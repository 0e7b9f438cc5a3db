use crate::reactor::TaskId;
use std::collections::HashMap;
use vstd::prelude::*;

verus! {

broadcast use vstd::std_specs::hash::group_hash_axioms;

/// Where a live task stands between polls.
#[derive(Clone, Copy, Debug, PartialEq, Eq, Structural)]
pub enum TaskState {
    /// Waiting for its waker; no poll is running.
    Suspended,
    /// A poll is running.
    Polling,
    /// A poll is running and the task was woken meanwhile: poll it again
    /// as soon as this poll returns.
    Rewoken,
}

/// What a fired waker asks of the host.
#[derive(Clone, Copy, Debug, PartialEq, Eq, Structural)]
pub enum WakeAction {
    /// Poll the task now, on this call stack.
    Poll,
    /// A poll of the task is already running; it will be polled again
    /// when that poll returns, never alongside it.
    Deferred,
    /// The task is gone (completed or never spawned): nothing to do.
    Ignored,
}

/// What to do once a poll has returned.
#[derive(Clone, Copy, Debug, PartialEq, Eq, Structural)]
pub enum AfterPoll {
    /// The computation produced its value: convert it and invoke the
    /// completion callback, once.
    Complete,
    /// The computation waits for a waker; keep it stored.
    Suspend,
    /// The task was woken during the poll: poll it again now.
    PollAgain,
    /// The task is not being polled: the report is refused, nothing changes.
    NotPolling,
}

/// The step taken when a poll of a task in state `s` returns; `ready`
/// says whether the computation produced its terminal value. Gives the
/// action and the task's state afterwards (`None`: no longer stored).
pub open spec fn poll_step(s: Option<TaskState>, ready: bool) -> (AfterPoll, Option<TaskState>) {
    match s {
        Some(TaskState::Polling) => if ready {
            (AfterPoll::Complete, None)
        } else {
            (AfterPoll::Suspend, Some(TaskState::Suspended))
        },
        Some(TaskState::Rewoken) => if ready {
            (AfterPoll::Complete, None)
        } else {
            (AfterPoll::PollAgain, Some(TaskState::Polling))
        },
        _ => (AfterPoll::NotPolling, s),
    }
}

/// The step taken when the waker of a task in state `s` fires.
pub open spec fn wake_step(s: Option<TaskState>) -> (WakeAction, Option<TaskState>) {
    match s {
        Some(TaskState::Suspended) => (WakeAction::Poll, Some(TaskState::Polling)),
        Some(_) => (WakeAction::Deferred, Some(TaskState::Rewoken)),
        None => (WakeAction::Ignored, None),
    }
}

/// The state of `id` in a task table, `None` when it is not stored.
pub open spec fn state_in(tasks: Map<TaskId, TaskState>, id: TaskId) -> Option<TaskState> {
    if tasks.contains_key(id) {
        Some(tasks[id])
    } else {
        None
    }
}

/// A table after task `id` moved to `s` (`None`: removed).
pub open spec fn with_state(tasks: Map<TaskId, TaskState>, id: TaskId, s: Option<TaskState>) -> Map<
    TaskId,
    TaskState,
> {
    match s {
        Some(st) => tasks.insert(id, st),
        None => tasks.remove(id),
    }
}

/// Owns every live task from spawn until completion and decides, for each
/// wake and each returned poll, what happens next.
pub struct Executor {
    tasks: HashMap<TaskId, TaskState>,
    next_id: TaskId,
    completed: Ghost<Set<TaskId>>,
}

impl Executor {
    /// Live tasks and where each stands.
    pub closed spec fn tasks_view(&self) -> Map<TaskId, TaskState> {
        self.tasks@
    }

    /// The identity the next spawned task will get.
    pub closed spec fn next_id_view(&self) -> TaskId {
        self.next_id
    }

    /// Tasks whose completion has been handed out.
    pub closed spec fn completed(&self) -> Set<TaskId> {
        self.completed@
    }

    /// The state of task `id`, `None` when it is not live.
    pub open spec fn state_of(&self, id: TaskId) -> Option<TaskState> {
        state_in(self.tasks_view(), id)
    }

    /// Identities are handed out in increasing order, and a completed task
    /// is never live again.
    pub closed spec fn wf(&self) -> bool {
        &&& forall|id: TaskId| #[trigger] self.tasks@.contains_key(id) ==> id < self.next_id
        &&& forall|id: TaskId| #[trigger] self.completed@.contains(id) ==> id < self.next_id
        &&& forall|id: TaskId| #[trigger] self.completed@.contains(id) ==> !self.tasks@.contains_key(id)
    }

    /// In a well-formed executor a completed task is not live, and every
    /// live or completed identity lies below the next one to be handed out.
    pub proof fn lemma_wf(&self, id: TaskId)
        requires
            self.wf(),
        ensures
            self.completed().contains(id) ==> !self.tasks_view().contains_key(id),
            self.completed().contains(id) ==> id < self.next_id_view(),
            self.tasks_view().contains_key(id) ==> id < self.next_id_view(),
    {
    }

    /// An executor with no task.
    pub fn new() -> (r: Executor)
        ensures
            r.wf(),
            r.tasks_view() == Map::<TaskId, TaskState>::empty(),
            r.completed() == Set::<TaskId>::empty(),
            r.next_id_view() == 0,
    {
        Executor { tasks: HashMap::new(), next_id: 0, completed: Ghost(Set::empty()) }
    }

    /// Whether task `id` is live.
    pub fn is_live(&self, id: TaskId) -> (r: bool)
        ensures
            r == self.tasks_view().contains_key(id),
    {
        self.tasks.contains_key(&id)
    }

    /// Number of live tasks.
    pub fn live_count(&self) -> (r: usize)
        ensures
            r == self.tasks_view().len(),
    {
        self.tasks.len()
    }

    /// Creates a task with a fresh identity, in state `Polling`: the caller
    /// runs its first poll right away and then reports it through
    /// `finish_poll`. `None` once every identity has been used.
    pub fn spawn(&mut self) -> (r: Option<TaskId>)
        requires
            old(self).wf(),
        ensures
            final(self).wf(),
            r is None <==> old(self).next_id_view() == u64::MAX,
            r is None ==> *final(self) == *old(self),
            r matches Some(id) ==> {
                &&& id == old(self).next_id_view()
                &&& !old(self).tasks_view().contains_key(id)
                &&& !old(self).completed().contains(id)
                &&& final(self).tasks_view() == old(self).tasks_view().insert(id, TaskState::Polling)
                &&& final(self).completed() == old(self).completed()
                &&& final(self).next_id_view() == id + 1
            },
    {
        if self.next_id == u64::MAX {
            return None;
        }
        let id = self.next_id;
        self.tasks.insert(id, TaskState::Polling);
        self.next_id = id + 1;
        Some(id)
    }

    /// The waker of task `id` fired. Polls start only from `Suspended`; a
    /// wake during a running poll, re-entrant or not, is deferred to the
    /// end of that poll.
    pub fn wake(&mut self, id: TaskId) -> (r: WakeAction)
        requires
            old(self).wf(),
        ensures
            final(self).wf(),
            r == wake_step(old(self).state_of(id)).0,
            final(self).tasks_view() == with_state(
                old(self).tasks_view(),
                id,
                wake_step(old(self).state_of(id)).1,
            ),
            final(self).completed() == old(self).completed(),
            final(self).next_id_view() == old(self).next_id_view(),
    {
        match self.tasks.get(&id) {
            Some(TaskState::Suspended) => {
                self.tasks.insert(id, TaskState::Polling);
                WakeAction::Poll
            },
            Some(_) => {
                self.tasks.insert(id, TaskState::Rewoken);
                WakeAction::Deferred
            },
            None => WakeAction::Ignored,
        }
    }

    /// A poll of task `id` returned; `ready` says whether the computation
    /// produced its terminal value. On completion the task leaves the
    /// table for good and the caller delivers the value, exactly once.
    pub fn finish_poll(&mut self, id: TaskId, ready: bool) -> (r: AfterPoll)
        requires
            old(self).wf(),
        ensures
            final(self).wf(),
            r == poll_step(old(self).state_of(id), ready).0,
            final(self).tasks_view() == with_state(
                old(self).tasks_view(),
                id,
                poll_step(old(self).state_of(id), ready).1,
            ),
            r == AfterPoll::Complete ==> ready && !old(self).completed().contains(id)
                && final(self).completed() == old(self).completed().insert(id),
            r != AfterPoll::Complete ==> final(self).completed() == old(self).completed(),
            final(self).next_id_view() == old(self).next_id_view(),
    {
        let state = match self.tasks.get(&id) {
            Some(s) => *s,
            None => return AfterPoll::NotPolling,
        };
        match state {
            TaskState::Suspended => AfterPoll::NotPolling,
            TaskState::Polling | TaskState::Rewoken => {
                if ready {
                    self.tasks.remove(&id);
                    proof {
                        self.completed@ = self.completed@.insert(id);
                    }
                    AfterPoll::Complete
                } else if state == TaskState::Polling {
                    self.tasks.insert(id, TaskState::Suspended);
                    AfterPoll::Suspend
                } else {
                    self.tasks.insert(id, TaskState::Polling);
                    AfterPoll::PollAgain
                }
            },
        }
    }
}

} // verus!
