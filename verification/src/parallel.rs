//! Toy parallel execution, modelled as bookkeeping: each unit of work
//! performs a fixed number of iterations, and the driver may proceed
//! past the join point only once both units have completed.

use vstd::prelude::*;

verus! {

/// One unit of work: a fixed number of planned iterations, recorded one
/// at a time as they are performed.
pub struct WorkUnit {
    pub planned: u32,
    pub completed: u32,
}

impl WorkUnit {
    /// A unit never records more iterations than were planned.
    pub open spec fn wf(self) -> bool {
        self.completed <= self.planned
    }

    /// A unit is complete once every planned iteration was recorded.
    pub open spec fn complete(self) -> bool {
        self.completed == self.planned
    }

    /// A fresh unit with the given number of planned iterations and
    /// none performed yet.
    pub fn new(planned: u32) -> (w: WorkUnit)
        ensures
            w.planned == planned,
            w.completed == 0,
            w.wf(),
    {
        WorkUnit { planned, completed: 0 }
    }

    /// Record one finished iteration of a unit that is not yet done.
    pub fn step(&mut self)
        requires
            old(self).wf(),
            !old(self).complete(),
        ensures
            final(self).planned == old(self).planned,
            final(self).completed == old(self).completed + 1,
            final(self).wf(),
    {
        self.completed = self.completed + 1;
    }

    /// Whether every planned iteration has been recorded.
    pub fn is_complete(&self) -> (r: bool)
        ensures
            r == self.complete(),
    {
        self.completed == self.planned
    }
}

/// The join point: true exactly when both units of work have completed
/// their fixed iteration counts, which is when the driver may proceed.
pub fn join_both(a: &WorkUnit, b: &WorkUnit) -> (r: bool)
    ensures
        r == (a.complete() && b.complete()),
{
    a.is_complete() && b.is_complete()
}

} // verus!
