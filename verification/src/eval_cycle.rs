//! The evaluation cycle counter shared by the nodes of a task.
use vstd::prelude::*;

verus! {

/// Number of the current evaluation cycle.
#[derive(Clone, Copy, Debug, PartialEq, Eq, Structural)]
pub struct CycleIndex(pub u64);

impl CycleIndex {
    /// Returns the index of the first cycle.
    pub fn new() -> (r: Self)
        ensures
            r.0 == 1,
    {
        CycleIndex(1)
    }

    /// Takes the value of `cycle`.
    /// - Returns `true` if the index changed,
    /// - Returns `false` if it already was `cycle`.
    pub fn update(&mut self, cycle: &Self) -> (r: bool)
        ensures
            final(self).0 == cycle.0,
            r == (old(self).0 != cycle.0),
    {
        if self.0 != cycle.0 {
            self.0 = cycle.0;
            return true;
        }
        false
    }

    /// Returns the index the counter restarts from.
    pub fn restart() -> (r: Self)
        ensures
            r.0 == 1,
    {
        CycleIndex(1)
    }
}

/// The index that follows `i`: counting goes on endlessly, wrapping back to 1.
pub open spec fn next_index(i: u64) -> u64 {
    if i >= u64::MAX { 1 } else { (i + 1) as u64 }
}

/// Counts evaluation cycles endlessly, in a circle.
#[derive(Debug)]
pub struct EvalCycle {
    val: CycleIndex,
}

impl EvalCycle {
    /// The current cycle index.
    pub closed spec fn current(&self) -> u64 {
        self.val.0
    }

    /// Returns a counter at the first cycle.
    pub fn new() -> (r: Self)
        ensures
            r.current() == 1,
    {
        EvalCycle { val: CycleIndex::restart() }
    }

    /// Moves the counter to the next cycle.
    pub fn increment(&mut self)
        ensures
            final(self).current() == next_index(old(self).current()),
    {
        if self.val.0 >= u64::MAX {
            self.val = CycleIndex::restart();
        } else {
            self.val.0 = self.val.0 + 1;
        }
    }

    /// Returns the current cycle index.
    pub fn get(&self) -> (r: CycleIndex)
        ensures
            r.0 == self.current(),
    {
        self.val
    }
}

/// After `increment`, the counter shows a different cycle than before: a node
/// that remembered the old index always sees the new cycle as a new one.
pub proof fn lemma_next_index_differs(i: u64)
    requires
        i >= 1,
    ensures
        next_index(i) != i,
        next_index(i) >= 1,
{
}

} // verus!
