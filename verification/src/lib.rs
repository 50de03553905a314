//! An affinity dispatcher for work that must run under a per-thread
//! execution context.
//!
//! Application code hands units of work to a small, fixed set of long-lived
//! workers, each bound at creation to one context tag. Submissions for the
//! same tag always reach the same worker, so all work for a tag is
//! serialized; work for different tags never shares a worker.
//!
//! The dispatcher itself — the registry that lazily creates and reuses one
//! worker per tag, the hand-off of a task to that worker, and the recovery
//! when a worker has died — is modelled and verified here. The surrounding
//! plumbing (operating-system threads, channels, the native context
//! initialization a worker performs on start-up) lives outside the library
//! and drives this model.

use vstd::prelude::*;

pub mod dispatcher;
pub mod guard;
pub mod laws;
pub mod protocol;
pub mod tag;
pub mod task;

verus! {

pub use crate::dispatcher::call_async;
pub use crate::dispatcher::call_sync;
pub use crate::dispatcher::Deferred;
pub use crate::dispatcher::DispState;
pub use crate::dispatcher::Dispatcher;
pub use crate::dispatcher::WorkerHandle;
pub use crate::guard::call_scoped;
pub use crate::guard::ComGuard;
pub use crate::tag::alias_model;
pub use crate::tag::model_from_alias;
pub use crate::tag::model_from_bytes;
pub use crate::tag::ComModel;
pub use crate::task::TaskCell;

} // verus!
