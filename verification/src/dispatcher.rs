//! The affinity dispatcher: a registry of workers, one per context tag, and
//! the submission paths that hand work to them.
//!
//! The dispatcher keeps one record per worker ever spawned. A registry entry
//! per tag points at the worker currently serving that tag; entries are
//! created lazily on first use and replaced only when their worker has died.
//! Each worker record carries an execution log: the global sequence numbers
//! of the tasks it ran, in the order it ran them. The log is what the
//! ordering guarantees are stated over.
//!
//! [`DispState`] is the mathematical model of that state, and the spec
//! transitions [`DispState::acquire`], [`DispState::submit`] and
//! [`DispState::terminate`] say exactly what each operation does to it.

use vstd::prelude::*;

use crate::tag::ComModel;
use crate::task::TaskCell;

verus! {

/// The model of one worker: its tag, whether it is still consuming its
/// channel, and the sequence numbers of the tasks it ran, in order.
#[verifier::ext_equal]
pub struct WorkerModel {
    pub tag: ComModel,
    pub alive: bool,
    pub log: Seq<nat>,
}

/// The model of the whole dispatcher: every worker ever spawned, the
/// registry entry per tag (an index into `workers`), and the next task
/// sequence number.
#[verifier::ext_equal]
pub struct DispState {
    pub workers: Seq<WorkerModel>,
    pub sta: Option<nat>,
    pub mta: Option<nat>,
    pub next_seq: nat,
}

impl DispState {
    /// The dispatcher before any submission: no workers, no entries.
    pub open spec fn initial() -> DispState {
        DispState { workers: Seq::empty(), sta: None, mta: None, next_seq: 0 }
    }

    /// The registry entry for a tag.
    pub open spec fn entry(self, m: ComModel) -> Option<nat> {
        match m {
            ComModel::STA => self.sta,
            ComModel::MTA => self.mta,
        }
    }

    /// The state with the entry for `m` pointing at worker `w`.
    pub open spec fn with_entry(self, m: ComModel, w: nat) -> DispState {
        match m {
            ComModel::STA => DispState { sta: Some(w), ..self },
            ComModel::MTA => DispState { mta: Some(w), ..self },
        }
    }

    /// Whether the entry for a tag points at a live worker.
    pub open spec fn has_live(self, m: ComModel) -> bool {
        &&& self.entry(m) is Some
        &&& self.entry(m)->0 < self.workers.len()
        &&& self.workers[self.entry(m)->0 as int].alive
    }

    /// Looking a tag up in the registry: a live entry is returned as it is;
    /// otherwise (no entry yet, or the entry's worker has died) a fresh
    /// worker is spawned and the entry is replaced. The result is the new
    /// state and the index of the worker now serving the tag.
    pub open spec fn acquire(self, m: ComModel) -> (DispState, nat) {
        if self.has_live(m) {
            (self, self.entry(m)->0)
        } else {
            let id = self.workers.len();
            let spawned = DispState {
                workers: self.workers.push(WorkerModel { tag: m, alive: true, log: Seq::empty() }),
                ..self
            };
            (spawned.with_entry(m, id), id)
        }
    }

    /// Submitting one task under a tag: acquire the tag's worker, then
    /// append the task's sequence number to that worker's log and advance
    /// the sequence counter. The result is the new state and the index of
    /// the worker that ran the task.
    pub open spec fn submit(self, m: ComModel) -> (DispState, nat) {
        let (mid, w) = self.acquire(m);
        let record = mid.workers[w as int];
        let done = DispState {
            workers: mid.workers.update(w as int, WorkerModel { log: record.log.push(self.next_seq), ..record }),
            next_seq: self.next_seq + 1,
            ..mid
        };
        (done, w)
    }

    /// A tag's worker terminating abnormally: the worker is marked dead, and
    /// the registry entry is left in place, stale, until the next lookup
    /// replaces it.
    pub open spec fn terminate(self, m: ComModel) -> DispState {
        if self.entry(m) is Some && self.entry(m)->0 < self.workers.len() {
            let w = self.entry(m)->0;
            DispState {
                workers: self.workers.update(
                    w as int,
                    WorkerModel { alive: false, ..self.workers[w as int] },
                ),
                ..self
            }
        } else {
            self
        }
    }

    /// The entry for a tag, where there is one, points at a worker bound to
    /// that tag.
    pub open spec fn entry_ok(self, m: ComModel) -> bool {
        self.entry(m) is Some ==> {
            &&& self.entry(m)->0 < self.workers.len()
            &&& self.workers[self.entry(m)->0 as int].tag == m
        }
    }

    /// Every live worker is the one its tag's entry points at. In
    /// particular, no two live workers share a tag.
    pub open spec fn live_registered(self) -> bool {
        forall|i: int|
            0 <= i < self.workers.len() && (#[trigger] self.workers[i]).alive ==> self.entry(
                self.workers[i].tag,
            ) == Some(i as nat)
    }

    /// One worker's log is strictly increasing and below the sequence
    /// counter: tasks appear in it in submission order, each at most once.
    pub open spec fn log_ok(self, log: Seq<nat>) -> bool {
        &&& forall|k: int| 0 <= k < log.len() ==> #[trigger] log[k] < self.next_seq
        &&& forall|k1: int, k2: int|
            0 <= k1 < k2 < log.len() ==> #[trigger] log[k1] < #[trigger] log[k2]
    }

    /// All workers' logs are ordered.
    pub open spec fn logs_ok(self) -> bool {
        forall|i: int| 0 <= i < self.workers.len() ==> self.log_ok((#[trigger] self.workers[i]).log)
    }

    /// Well-formedness of the dispatcher state.
    pub open spec fn wf(self) -> bool {
        &&& self.entry_ok(ComModel::STA)
        &&& self.entry_ok(ComModel::MTA)
        &&& self.live_registered()
        &&& self.logs_ok()
    }
}

/// Acquiring preserves well-formedness, serves the tag with a live worker,
/// touches no other tag's entry and no existing record, and spawns at most
/// one worker — none when the tag already had a live one.
pub proof fn lemma_acquire_wf(s: DispState, m: ComModel)
    requires
        s.wf(),
    ensures
        ({
            let (s1, w) = s.acquire(m);
            &&& s1.wf()
            &&& s1.entry(m) == Some(w)
            &&& w < s1.workers.len()
            &&& s1.workers[w as int].alive
            &&& s1.workers[w as int].tag == m
            &&& s1.next_seq == s.next_seq
            &&& forall|m2: ComModel| m2 != m ==> s1.entry(m2) == s.entry(m2)
            &&& forall|i: int| 0 <= i < s.workers.len() ==> s1.workers[i] == s.workers[i]
            &&& if s.has_live(m) {
                s1 == s && w == s.entry(m)->0
            } else {
                &&& w == s.workers.len()
                &&& s1.workers.len() == s.workers.len() + 1
                &&& s1.workers[w as int].log == Seq::<nat>::empty()
            }
        }),
{
    let (s1, w) = s.acquire(m);
    if s.has_live(m) {
        assert(s1 == s);
    } else {
        assert forall|m2: ComModel| m2 != m implies s1.entry(m2) == s.entry(m2) by {
            match m2 {
                ComModel::STA => {},
                ComModel::MTA => {},
            }
        }
        assert(s1.entry_ok(ComModel::STA));
        assert(s1.entry_ok(ComModel::MTA));
        assert forall|i: int|
            0 <= i < s1.workers.len() && (#[trigger] s1.workers[i]).alive implies s1.entry(
            s1.workers[i].tag,
        ) == Some(i as nat) by {
            if i < s.workers.len() {
                assert(s.workers[i].alive);
                assert(s.entry(s.workers[i].tag) == Some(i as nat));
                if s.workers[i].tag == m {
                    assert(s.has_live(m));
                }
            }
        }
        assert(s1.logs_ok());
    }
}

/// Submitting preserves well-formedness: it appends the task to the serving
/// worker's log, keeps every other record as it was, and advances the
/// sequence counter by one.
pub proof fn lemma_submit_wf(s: DispState, m: ComModel)
    requires
        s.wf(),
    ensures
        ({
            let (s1, w) = s.submit(m);
            let (sa, wa) = s.acquire(m);
            &&& s1.wf()
            &&& w == wa
            &&& s1.entry(ComModel::STA) == sa.entry(ComModel::STA)
            &&& s1.entry(ComModel::MTA) == sa.entry(ComModel::MTA)
            &&& s1.workers.len() == sa.workers.len()
            &&& s1.next_seq == s.next_seq + 1
            &&& s1.workers[w as int].log == sa.workers[w as int].log.push(s.next_seq)
            &&& s1.workers[w as int].alive
            &&& s1.workers[w as int].tag == m
            &&& forall|i: int|
                0 <= i < s1.workers.len() && i != w ==> s1.workers[i] == sa.workers[i]
        }),
{
    lemma_acquire_wf(s, m);
    let (sa, wa) = s.acquire(m);
    let (s1, w) = s.submit(m);
    assert(s1.entry_ok(ComModel::STA));
    assert(s1.entry_ok(ComModel::MTA));
    assert forall|i: int|
        0 <= i < s1.workers.len() && (#[trigger] s1.workers[i]).alive implies s1.entry(
        s1.workers[i].tag,
    ) == Some(i as nat) by {
        assert(sa.workers[i].alive);
        assert(sa.entry(sa.workers[i].tag) == Some(i as nat));
    }
    assert forall|i: int| 0 <= i < s1.workers.len() implies s1.log_ok(
        (#[trigger] s1.workers[i]).log,
    ) by {
        assert(sa.log_ok(sa.workers[i].log));
        if i == w as int {
            let log1 = s1.workers[i].log;
            assert forall|k1: int, k2: int| 0 <= k1 < k2 < log1.len() implies #[trigger] log1[k1]
                < #[trigger] log1[k2] by {
                assert(sa.log_ok(sa.workers[w as int].log));
            }
        }
    }
}

/// Terminating preserves well-formedness and changes nothing but one
/// worker's liveness.
pub proof fn lemma_terminate_wf(s: DispState, m: ComModel)
    requires
        s.wf(),
    ensures
        ({
            let s1 = s.terminate(m);
            &&& s1.wf()
            &&& s1.entry(ComModel::STA) == s.entry(ComModel::STA)
            &&& s1.entry(ComModel::MTA) == s.entry(ComModel::MTA)
            &&& s1.workers.len() == s.workers.len()
            &&& s1.next_seq == s.next_seq
            &&& !s1.has_live(m)
            &&& forall|i: int|
                0 <= i < s1.workers.len() ==> (#[trigger] s1.workers[i]).tag == s.workers[i].tag
                    && s1.workers[i].log == s.workers[i].log
        }),
{
    let s1 = s.terminate(m);
    if s.entry(m) is Some && s.entry(m)->0 < s.workers.len() {
        let w = s.entry(m)->0;
        assert forall|i: int|
            0 <= i < s1.workers.len() && (#[trigger] s1.workers[i]).alive implies s1.entry(
            s1.workers[i].tag,
        ) == Some(i as nat) by {
            assert(s1.workers[i] == if i == w as int {
                s1.workers[w as int]
            } else {
                s.workers[i]
            });
        }
        assert(s1.logs_ok());
    } else {
        assert(s1 == s);
    }
}

/// One worker's record: its tag, whether it is still consuming its channel,
/// and its execution log.
struct WorkerRecord {
    tag: ComModel,
    alive: bool,
    log: Vec<u64>,
}

impl View for WorkerRecord {
    type V = WorkerModel;

    closed spec fn view(&self) -> WorkerModel {
        WorkerModel {
            tag: self.tag,
            alive: self.alive,
            log: self.log@.map_values(|x: u64| x as nat),
        }
    }
}

/// The registry's reference to a worker: which worker serves a tag. Handles
/// are copied out to callers; a handle is never mutated, a fresh one replaces
/// a stale one.
#[derive(Clone, Copy)]
pub struct WorkerHandle {
    id: usize,
}

impl View for WorkerHandle {
    type V = nat;

    closed spec fn view(&self) -> nat {
        self.id as nat
    }
}

impl WorkerHandle {
    /// The identity of the worker this handle points at.
    pub fn worker_id(&self) -> (id: usize)
        ensures
            id as nat == self@,
    {
        self.id
    }
}

/// The dispatcher: the registry of workers, one live worker per context tag,
/// and the counter that orders submissions.
///
/// Its abstract value is a [`DispState`]; every operation's contract says
/// which [`DispState`] transition it performs.
pub struct Dispatcher {
    workers: Vec<WorkerRecord>,
    sta: Option<usize>,
    mta: Option<usize>,
    next_seq: u64,
}

impl View for Dispatcher {
    type V = DispState;

    closed spec fn view(&self) -> DispState {
        DispState {
            workers: self.workers@.map_values(|w: WorkerRecord| w@),
            sta: match self.sta {
                Some(i) => Some(i as nat),
                None => None,
            },
            mta: match self.mta {
                Some(i) => Some(i as nat),
                None => None,
            },
            next_seq: self.next_seq as nat,
        }
    }
}

impl Dispatcher {
    /// Well-formedness: the abstract state is well-formed.
    pub open spec fn wf(&self) -> bool {
        self@.wf()
    }

    /// A dispatcher with no workers yet: entries are created lazily, on the
    /// first submission for a tag.
    pub fn new() -> (d: Dispatcher)
        ensures
            d.wf(),
            d@ == DispState::initial(),
    {
        let d = Dispatcher { workers: Vec::new(), sta: None, mta: None, next_seq: 0 };
        proof {
            assert(d@ =~= DispState::initial());
        }
        d
    }

    /// The registry lookup: under one lock in the running system, and as one
    /// atomic step here. An existing live entry is returned as it is; a
    /// missing entry, or one whose worker has died, is replaced by a freshly
    /// spawned worker before the handle is handed out. No other entry and no
    /// existing record changes.
    pub fn get_or_create(&mut self, model: ComModel) -> (h: WorkerHandle)
        requires
            old(self).wf(),
        ensures
            final(self).wf(),
            final(self)@ == old(self)@.acquire(model).0,
            h@ == old(self)@.acquire(model).1,
            final(self)@.entry(model) == Some(h@),
            h@ < final(self)@.workers.len(),
            final(self)@.workers[h@ as int].alive,
    {
        proof {
            lemma_acquire_wf(self@, model);
        }
        let cur: Option<usize> = match model {
            ComModel::STA => self.sta,
            ComModel::MTA => self.mta,
        };
        if let Some(i) = cur {
            if self.workers[i].alive {
                assert(self@.has_live(model));
                return WorkerHandle { id: i };
            }
        }
        assert(!self@.has_live(model));
        let ghost prev = self@;
        let id = self.workers.len();
        self.workers.push(WorkerRecord { tag: model, alive: true, log: Vec::new() });
        match model {
            ComModel::STA => self.sta = Some(id),
            ComModel::MTA => self.mta = Some(id),
        }
        proof {
            let pushed = prev.workers.push(
                WorkerModel { tag: model, alive: true, log: Seq::empty() },
            );
            assert(self@.workers =~~= pushed);
            assert(self@ =~~= prev.acquire(model).0);
        }
        WorkerHandle { id }
    }

    /// The identity of the worker currently registered for a tag, if any.
    pub fn worker_for(&self, model: ComModel) -> (r: Option<usize>)
        ensures
            r is Some <==> self@.entry(model) is Some,
            r is Some ==> r->0 as nat == self@.entry(model)->0,
    {
        match model {
            ComModel::STA => self.sta,
            ComModel::MTA => self.mta,
        }
    }

    /// How many workers were ever spawned.
    pub fn worker_count(&self) -> (n: usize)
        ensures
            n as nat == self@.workers.len(),
    {
        self.workers.len()
    }

    /// Whether a worker is still consuming its channel.
    pub fn worker_alive(&self, id: usize) -> (b: bool)
        requires
            id < self@.workers.len(),
        ensures
            b == self@.workers[id as int].alive,
    {
        self.workers[id].alive
    }

    /// The tag a worker is bound to.
    pub fn worker_tag(&self, id: usize) -> (m: ComModel)
        requires
            id < self@.workers.len(),
        ensures
            m == self@.workers[id as int].tag,
    {
        self.workers[id].tag
    }

    /// A worker's execution log: the sequence numbers of the tasks it ran,
    /// in the order it ran them.
    pub fn worker_log(&self, id: usize) -> (log: &Vec<u64>)
        requires
            id < self@.workers.len(),
        ensures
            log@.map_values(|x: u64| x as nat) == self@.workers[id as int].log,
    {
        &self.workers[id].log
    }

    /// How many tasks were submitted so far, over all tags.
    pub fn submitted(&self) -> (n: u64)
        ensures
            n as nat == self@.next_seq,
    {
        self.next_seq
    }

    /// A tag's worker terminating abnormally (its thread aborted). The
    /// worker is marked dead; the registry entry stays, stale, until the
    /// next lookup for the tag detects it and spawns a replacement.
    pub fn terminate_worker(&mut self, model: ComModel)
        requires
            old(self).wf(),
        ensures
            final(self).wf(),
            final(self)@ == old(self)@.terminate(model),
    {
        proof {
            lemma_terminate_wf(self@, model);
        }
        let ghost prev = self@;
        let cur: Option<usize> = match model {
            ComModel::STA => self.sta,
            ComModel::MTA => self.mta,
        };
        if let Some(i) = cur {
            let n = self.workers.len();
            if i < n {
                self.workers[i].alive = false;
                proof {
                    assert(self@.workers =~~= prev.terminate(model).workers);
                    assert(self@ =~~= prev.terminate(model));
                }
            }
        }
    }
}

/// Runs one task on the worker serving a tag: the common dispatch path of
/// the blocking and the suspending call. It performs exactly the
/// [`DispState::submit`] transition and returns what the closure returned.
fn run_task<F, R>(d: &mut Dispatcher, model: ComModel, f: F) -> (r: R) where
    F: FnOnce() -> R + Send + 'static,
    R: Send + 'static,

    requires
        old(d).wf(),
        old(d)@.next_seq < u64::MAX,
        call_requires(f, ()),
    ensures
        final(d).wf(),
        final(d)@ == old(d)@.submit(model).0,
        final(d)@.entry(model) == Some(old(d)@.submit(model).1),
        call_ensures(f, (), r),
{
    let ghost s0 = d@;
    proof {
        lemma_acquire_wf(s0, model);
        lemma_submit_wf(s0, model);
    }
    let h = d.get_or_create(model);
    let cell = TaskCell::new(f);
    let seq: u64 = d.next_seq;
    d.next_seq = seq + 1;
    let ghost mid = s0.acquire(model).0;
    let i = h.id;
    assert(i < d.workers.len());
    let worker = &mut d.workers[i];
    worker.log.push(seq);
    proof {
        let record = mid.workers[h.id as int];
        assert(log_view(d.workers@[i as int].log@) =~~= record.log.push(s0.next_seq));
        assert(d@.workers =~~= mid.workers.update(
            i as int,
            WorkerModel { log: record.log.push(s0.next_seq), ..record },
        ));
        assert(d@ =~~= s0.submit(model).0);
    }
    cell.run()
}

/// The sequence numbers a raw log holds.
spec fn log_view(log: Seq<u64>) -> Seq<nat> {
    log.map_values(|x: u64| x as nat)
}

/// Submits a task under a tag and blocks the caller until the worker has run
/// it: the task runs on the one worker serving the tag — spawned now if the
/// tag is new or its worker died — after everything already in that worker's
/// queue, and its result is returned. The dispatcher performs exactly the
/// [`DispState::submit`] transition for the tag.
pub fn call_sync<F, R>(d: &mut Dispatcher, model: ComModel, f: F) -> (r: R) where
    F: FnOnce() -> R + Send + 'static,
    R: Send + 'static,

    requires
        old(d).wf(),
        old(d)@.next_seq < u64::MAX,
        call_requires(f, ()),
    ensures
        final(d).wf(),
        final(d)@ == old(d)@.submit(model).0,
        final(d)@.entry(model) == Some(old(d)@.submit(model).1),
        call_ensures(f, (), r),
{
    run_task(d, model, f)
}

/// A deferred result: what a suspending call hands back. The caller suspends
/// on it — without blocking its own thread in the running system — until the
/// worker has produced the value.
pub struct Deferred<R> {
    value: R,
}

impl<R> Deferred<R> {
    /// The value the worker produced.
    pub closed spec fn result(self) -> R {
        self.value
    }

    /// Suspends until the result is there, and yields it.
    pub fn wait(self) -> (r: R)
        ensures
            r == self.result(),
    {
        self.value
    }
}

/// Submits a task under a tag and suspends the caller: the dispatch is the
/// same as the blocking call's — the same worker, the same per-tag order,
/// exactly the [`DispState::submit`] transition — only the caller gets a
/// [`Deferred`] to suspend on instead of blocking. The worker drives the
/// task to completion on its own thread before the deferred result resolves.
pub fn call_async<F, R>(d: &mut Dispatcher, model: ComModel, f: F) -> (fut: Deferred<R>) where
    F: FnOnce() -> R + Send + 'static,
    R: Send + 'static,

    requires
        old(d).wf(),
        old(d)@.next_seq < u64::MAX,
        call_requires(f, ()),
    ensures
        final(d).wf(),
        final(d)@ == old(d)@.submit(model).0,
        final(d)@.entry(model) == Some(old(d)@.submit(model).1),
        call_ensures(f, (), fut.result()),
{
    let value = run_task(d, model, f);
    Deferred { value }
}

} // verus!
