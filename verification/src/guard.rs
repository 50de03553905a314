//! Scoped acquisition of an execution context on the caller's own thread.
//!
//! Beside the thread-pinned submission paths, a function can run under a
//! context entered and torn down inline, around its own body, without
//! involving the registry. [`ComGuard`] is the token of one such
//! acquisition: the Context Provider's `enter` hands one out, and releasing
//! it tears the context down again. The provider itself is an outside
//! collaborator; the guard here records which context the scope holds, which
//! is all the dispatch logic reads of it.

use vstd::prelude::*;

use crate::tag::ComModel;

verus! {

/// The token of one scoped context acquisition: held for the scope's
/// lifetime, released on every exit path.
pub struct ComGuard {
    model: ComModel,
}

impl ComGuard {
    /// The context this guard holds entered.
    pub closed spec fn entered(self) -> ComModel {
        self.model
    }

    /// Acquires a context for the current scope. Entering is best effort: an
    /// "already initialized" outcome counts as entered, so acquisition
    /// itself never fails.
    pub fn new(model: ComModel) -> (g: ComGuard)
        ensures
            g.entered() == model,
    {
        ComGuard { model }
    }

    /// The context this guard holds entered.
    pub fn model(&self) -> (m: ComModel)
        ensures
            m == self.entered(),
    {
        self.model
    }
}

/// Runs a closure under a context entered inline, on the caller's own
/// thread: the guard is acquired before the body and held until after it, so
/// the whole body runs inside the context; the result is whatever the body
/// returns.
pub fn call_scoped<F, R>(model: ComModel, f: F) -> (r: R) where F: FnOnce() -> R
    requires
        call_requires(f, ()),
    ensures
        call_ensures(f, (), r),
{
    let guard = ComGuard::new(model);
    let r = f();
    let _released = guard;
    r
}

} // verus!
