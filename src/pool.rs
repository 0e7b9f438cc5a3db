use vstd::prelude::*;

verus! {

/// Failures of the pool lease.
#[derive(Clone, Copy, Debug, PartialEq, Eq, Structural)]
pub enum LeaseError {
    /// The resource was already released: it can no longer be acquired.
    Released,
    /// No further task reference can be counted.
    TooManyHolders,
    /// A release with no matching holder.
    NotHeld,
}

/// Reference-counted ownership of a shared pool handle: the connection
/// object owns it, and each in-flight task holds one reference for its
/// own duration. The handle is released only when the owner and the last
/// task reference are both gone.
pub struct PoolLease {
    owner: bool,
    tasks: u64,
}

impl PoolLease {
    /// Whether the owning connection still holds the handle.
    pub closed spec fn owner_view(&self) -> bool {
        self.owner
    }

    /// Number of task references held.
    pub closed spec fn tasks_view(&self) -> nat {
        self.tasks as nat
    }

    /// The handle is valid while anyone holds it.
    pub open spec fn valid(&self) -> bool {
        self.owner_view() || self.tasks_view() > 0
    }

    /// A handle held by its owner alone.
    pub fn new() -> (r: PoolLease)
        ensures
            r.owner_view(),
            r.tasks_view() == 0,
    {
        PoolLease { owner: true, tasks: 0 }
    }

    /// Whether the handle is still valid.
    pub fn is_valid(&self) -> (r: bool)
        ensures
            r == self.valid(),
    {
        self.owner || self.tasks > 0
    }

    /// Number of task references held.
    pub fn task_refs(&self) -> (r: u64)
        ensures
            r == self.tasks_view(),
    {
        self.tasks
    }

    /// A task takes a reference to the handle for its own duration.
    pub fn acquire(&mut self) -> (r: Result<(), LeaseError>)
        ensures
            r == Err::<(), LeaseError>(LeaseError::Released) <==> !old(self).valid(),
            r == Err::<(), LeaseError>(LeaseError::TooManyHolders) <==> old(self).valid()
                && old(self).tasks_view() == u64::MAX,
            r is Ok <==> old(self).valid() && old(self).tasks_view() < u64::MAX,
            r is Err ==> *final(self) == *old(self),
            r is Ok ==> final(self).tasks_view() == old(self).tasks_view() + 1,
            final(self).owner_view() == old(self).owner_view(),
    {
        if !(self.owner || self.tasks > 0) {
            return Err(LeaseError::Released);
        }
        if self.tasks == u64::MAX {
            return Err(LeaseError::TooManyHolders);
        }
        self.tasks = self.tasks + 1;
        Ok(())
    }

    /// A task gives its reference back. Returns whether this released the
    /// handle (no one holds it any more).
    pub fn release_task(&mut self) -> (r: Result<bool, LeaseError>)
        ensures
            r is Err <==> old(self).tasks_view() == 0,
            r is Err ==> *final(self) == *old(self),
            r is Ok ==> final(self).tasks_view() + 1 == old(self).tasks_view(),
            final(self).owner_view() == old(self).owner_view(),
            r matches Ok(last) ==> last == !final(self).valid(),
    {
        if self.tasks == 0 {
            return Err(LeaseError::NotHeld);
        }
        self.tasks = self.tasks - 1;
        Ok(!self.owner && self.tasks == 0)
    }

    /// The owning connection is dropped. Returns whether this released the
    /// handle (no task holds it).
    pub fn release_owner(&mut self) -> (r: Result<bool, LeaseError>)
        ensures
            r is Err <==> !old(self).owner_view(),
            r is Err ==> *final(self) == *old(self),
            r is Ok ==> !final(self).owner_view(),
            final(self).tasks_view() == old(self).tasks_view(),
            r matches Ok(last) ==> last == !final(self).valid(),
    {
        if !self.owner {
            return Err(LeaseError::NotHeld);
        }
        self.owner = false;
        Ok(self.tasks == 0)
    }
}

} // verus!
