use crate::reactor::TaskId;
use vstd::prelude::*;

verus! {

/// A waker to fire once the monotonic clock reaches `deadline`.
#[derive(Clone, Copy, Debug, PartialEq, Eq, Structural)]
pub struct TimerEntry {
    pub deadline: u64,
    pub task: TaskId,
}

/// Whether an entry has come due at time `now`.
pub open spec fn due_at(now: u64) -> spec_fn(TimerEntry) -> bool {
    |e: TimerEntry| e.deadline <= now
}

/// Whether an entry is still waiting at time `now`.
pub open spec fn waiting_at(now: u64) -> spec_fn(TimerEntry) -> bool {
    |e: TimerEntry| now < e.deadline
}

/// The deadline for a wait of `duration` begun at `now`; a deadline past
/// the end of the clock is held at its last value, `u64::MAX`, and comes
/// due only there.
pub open spec fn deadline_after(now: u64, duration: u64) -> u64 {
    if now as int + duration as int > u64::MAX as int {
        u64::MAX
    } else {
        (now + duration) as u64
    }
}

/// Whether `entry` has come due at time `now`.
pub fn is_due(entry: TimerEntry, now: u64) -> (r: bool)
    ensures
        r == due_at(now)(entry),
{
    entry.deadline <= now
}

/// The deadline store: every scheduled wait that has not fired yet, in
/// the order in which they were scheduled.
pub struct TimerQueue {
    entries: Vec<TimerEntry>,
}

impl View for TimerQueue {
    type V = Seq<TimerEntry>;

    closed spec fn view(&self) -> Seq<TimerEntry> {
        self.entries@
    }
}

impl TimerQueue {
    /// A store with nothing scheduled.
    pub fn new() -> (r: TimerQueue)
        ensures
            r@ == Seq::<TimerEntry>::empty(),
    {
        TimerQueue { entries: Vec::new() }
    }

    /// Number of waits not fired yet.
    pub fn len(&self) -> (r: usize)
        ensures
            r == self@.len(),
    {
        self.entries.len()
    }

    /// Schedules `task` to be woken once `duration` has elapsed from `now`,
    /// and returns the deadline.
    pub fn schedule(&mut self, now: u64, duration: u64, task: TaskId) -> (r: u64)
        ensures
            r == deadline_after(now, duration),
            final(self)@ == old(self)@.push(TimerEntry { deadline: r, task }),
    {
        let deadline = now.saturating_add(duration);
        self.entries.push(TimerEntry { deadline, task });
        deadline
    }

    /// Takes out every entry that has come due at `now`, in the order in
    /// which they were scheduled; the entries still waiting stay.
    pub fn fire_due(&mut self, now: u64) -> (fired: Vec<TimerEntry>)
        ensures
            fired@ == old(self)@.filter(due_at(now)),
            final(self)@ == old(self)@.filter(waiting_at(now)),
    {
        let ghost all = self.entries@;
        let mut fired: Vec<TimerEntry> = Vec::new();
        let mut kept: Vec<TimerEntry> = Vec::new();
        let mut i: usize = 0;
        while i < self.entries.len()
            invariant
                self.entries@ == all,
                0 <= i <= all.len(),
                fired@ == all.subrange(0, i as int).filter(due_at(now)),
                kept@ == all.subrange(0, i as int).filter(waiting_at(now)),
            decreases all.len() - i,
        {
            let e = self.entries[i];
            proof {
                let next = all.subrange(0, i + 1);
                assert(next.drop_last() =~= all.subrange(0, i as int));
                assert(next.last() == e);
                reveal(Seq::filter);
            }
            if is_due(e, now) {
                fired.push(e);
            } else {
                kept.push(e);
            }
            i = i + 1;
        }
        proof {
            assert(all.subrange(0, all.len() as int) =~= all);
        }
        self.entries = kept;
        fired
    }

    /// The earliest deadline still waiting, if any: when the driver has to
    /// look next.
    pub fn next_deadline(&self) -> (r: Option<u64>)
        ensures
            r is None <==> self@.len() == 0,
            r matches Some(d) ==> (exists|i: int| 0 <= i < self@.len() && self@[i].deadline == d),
            r matches Some(d) ==> (forall|i: int| 0 <= i < self@.len() ==> d <= self@[i].deadline),
    {
        if self.entries.len() == 0 {
            return None;
        }
        let mut best: u64 = self.entries[0].deadline;
        let mut i: usize = 1;
        while i < self.entries.len()
            invariant
                1 <= i <= self.entries@.len(),
                exists|j: int| 0 <= j < i && self.entries@[j].deadline == best,
                forall|j: int| 0 <= j < i ==> best <= self.entries@[j].deadline,
            decreases self.entries@.len() - i,
        {
            if self.entries[i].deadline < best {
                best = self.entries[i].deadline;
            }
            i = i + 1;
        }
        Some(best)
    }
}

} // verus!
