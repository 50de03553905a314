//! One-shot units of work.
//!
//! A [`TaskCell`] owns a closure with no parameters beyond its captured
//! state. Ownership of the closure moves into the cell at creation, and
//! [`TaskCell::run`] consumes the cell, so the closure runs exactly once.

use vstd::prelude::*;

verus! {

/// A one-shot unit of work: the capture of a closure, consumed exactly once
/// when a worker runs it.
pub struct TaskCell<F> {
    work: F,
}

impl<F> TaskCell<F> {
    /// The closure the cell owns.
    pub closed spec fn task(self) -> F {
        self.work
    }

    /// Wraps a closure into a cell; the closure moves into the cell.
    pub fn new(work: F) -> (cell: TaskCell<F>)
        ensures
            cell.task() == work,
    {
        TaskCell { work }
    }

    /// Runs the cell's closure, consuming the cell: the work happens exactly
    /// once, and the result is whatever the closure returns.
    pub fn run<R>(self) -> (r: R) where F: FnOnce() -> R
        requires
            call_requires(self.task(), ()),
        ensures
            call_ensures(self.task(), (), r),
    {
        (self.work)()
    }
}

} // verus!
