use vstd::prelude::*;

verus! {

/// A counting permit pool bounding the number of simultaneously active
/// sessions. `capacity` is fixed at construction; `available` is the number
/// of permits not currently held by a session.
pub struct PermitPool {
    pub capacity: usize,
    pub available: usize,
}

impl PermitPool {
    /// The pool holds at least one slot and never has more free permits
    /// than its capacity.
    pub open spec fn wf(self) -> bool {
        1 <= self.capacity && self.available <= self.capacity
    }

    /// How many sessions currently hold a permit.
    pub open spec fn in_use(self) -> int {
        self.capacity - self.available
    }

    /// The pool after one permit is handed out.
    pub open spec fn spec_acquire(self) -> PermitPool {
        PermitPool { capacity: self.capacity, available: (self.available - 1) as usize }
    }

    /// The pool after one permit is handed back.
    pub open spec fn spec_release(self) -> PermitPool {
        PermitPool { capacity: self.capacity, available: (self.available + 1) as usize }
    }

    pub fn new(capacity: usize) -> (p: PermitPool)
        requires
            1 <= capacity,
        ensures
            p.wf(),
            p.capacity == capacity,
            p.available == capacity,
            p.in_use() == 0,
    {
        PermitPool { capacity, available: capacity }
    }

    /// Admission step: a session is admitted exactly when a permit is free;
    /// admission takes one permit, a refused attempt changes nothing and
    /// must wait for a release.
    pub fn try_acquire(&mut self) -> (admitted: bool)
        requires
            old(self).wf(),
        ensures
            final(self).wf(),
            admitted <==> old(self).available > 0,
            admitted ==> *final(self) == old(self).spec_acquire(),
            !admitted ==> *final(self) == *old(self),
    {
        if self.available > 0 {
            self.available = self.available - 1;
            true
        } else {
            false
        }
    }

    /// Hand one permit back. A caller releases only a permit it was granted,
    /// so the count stays within capacity.
    pub fn release(&mut self)
        requires
            old(self).wf(),
            old(self).available < old(self).capacity,
        ensures
            final(self).wf(),
            *final(self) == old(self).spec_release(),
    {
        self.available = self.available + 1;
    }
}

/// Concurrency bound: in a well-formed pool of capacity C, at no point are
/// more than C sessions past the admission step, and once C sessions are in,
/// no permit is free, so the next admission attempt is refused until a
/// release.
pub proof fn lemma_concurrency_bound(p: PermitPool)
    requires
        p.wf(),
    ensures
        0 <= p.in_use() <= p.capacity,
        p.in_use() == p.capacity ==> p.available == 0,
{
}

/// Permit conservation: admitting a session takes exactly one permit, and the
/// matching release gives exactly one back, restoring the pool to its prior
/// state — whichever way the session ends.
pub proof fn lemma_permit_conservation(p: PermitPool)
    requires
        p.wf(),
        0 < p.available,
    ensures
        p.spec_acquire().wf(),
        p.spec_acquire().in_use() == p.in_use() + 1,
        p.spec_acquire().spec_release() == p,
{
}

} // verus!
