//! The dispatcher's guarantees, as proved laws over [`DispState`].
//!
//! [`call_sync`](crate::dispatcher::call_sync) and
//! [`call_async`](crate::dispatcher::call_async) both perform exactly the
//! [`DispState::submit`] transition, and
//! [`Dispatcher::get_or_create`](crate::dispatcher::Dispatcher::get_or_create)
//! exactly [`DispState::acquire`], so each law below holds of any run of
//! those calls.

use vstd::prelude::*;

use crate::dispatcher::lemma_acquire_wf;
use crate::dispatcher::lemma_submit_wf;
use crate::dispatcher::lemma_terminate_wf;
use crate::dispatcher::DispState;
use crate::tag::ComModel;

verus! {

/// Two successive submissions for the same tag run on the same worker. Both
/// the blocking and the suspending call perform the `submit` transition, so
/// this covers two blocking calls, two suspending ones, and the mixed pair
/// alike.
pub proof fn lemma_same_tag_same_worker(s: DispState, m: ComModel)
    requires
        s.wf(),
    ensures
        ({
            let (s1, w1) = s.submit(m);
            let (s2, w2) = s1.submit(m);
            w1 == w2
        }),
{
    lemma_acquire_wf(s, m);
    lemma_submit_wf(s, m);
    let (s1, w1) = s.submit(m);
    lemma_submit_wf(s1, m);
    assert(s1.has_live(m));
}

/// Submissions for two different tags never run on the same worker, in
/// whatever order they come.
pub proof fn lemma_distinct_tags_distinct_workers(s: DispState, m1: ComModel, m2: ComModel)
    requires
        s.wf(),
        m1 != m2,
    ensures
        ({
            let (s1, w1) = s.submit(m1);
            let (s2, w2) = s1.submit(m2);
            w1 != w2
        }),
{
    lemma_acquire_wf(s, m1);
    lemma_submit_wf(s, m1);
    let (s1, w1) = s.submit(m1);
    lemma_acquire_wf(s1, m2);
    lemma_submit_wf(s1, m2);
    let (s2, w2) = s1.submit(m2);
    assert(s1.workers[w1 as int].tag == m1);
    assert(s1.acquire(m2).0.workers[w2 as int].tag == m2);
    if w2 == w1 {
        assert(s1.acquire(m2).0.workers[w1 as int] == s1.workers[w1 as int]);
    }
}

/// Per-tag FIFO: submitting one task and then another under the same tag
/// appends the two, in submission order, to the same worker's log, right
/// after everything the worker had already run.
pub proof fn lemma_fifo_per_tag(s: DispState, m: ComModel)
    requires
        s.wf(),
    ensures
        ({
            let (s1, w) = s.submit(m);
            let (s2, w2) = s1.submit(m);
            let before = s.acquire(m).0.workers[w as int].log;
            &&& w2 == w
            &&& s2.workers[w as int].log == before + seq![s.next_seq, (s.next_seq + 1) as nat]
        }),
{
    lemma_same_tag_same_worker(s, m);
    lemma_acquire_wf(s, m);
    lemma_submit_wf(s, m);
    let (s1, w) = s.submit(m);
    lemma_acquire_wf(s1, m);
    lemma_submit_wf(s1, m);
    let (s2, w2) = s1.submit(m);
    let before = s.acquire(m).0.workers[w as int].log;
    assert(s1.has_live(m));
    assert(s1.acquire(m).0 == s1);
    assert(s2.workers[w as int].log == s1.workers[w as int].log.push(s1.next_seq));
    assert(s2.workers[w as int].log =~= before + seq![s.next_seq, (s.next_seq + 1) as nat]);
}

/// Lookup is idempotent: once a tag's worker is there and live, another
/// lookup returns the very same worker and changes nothing — over any number
/// of lookups, a tag gets exactly one worker.
pub proof fn lemma_lookup_idempotent(s: DispState, m: ComModel)
    requires
        s.wf(),
    ensures
        ({
            let (s1, w1) = s.acquire(m);
            let (s2, w2) = s1.acquire(m);
            &&& s2 == s1
            &&& w2 == w1
            &&& s1.workers.len() <= s.workers.len() + 1
        }),
{
    lemma_acquire_wf(s, m);
    let (s1, w1) = s.acquire(m);
    lemma_acquire_wf(s1, m);
    assert(s1.has_live(m));
}

/// At most one live worker per tag: any two live workers bound to the same
/// tag are the same worker.
pub proof fn lemma_one_live_worker_per_tag(s: DispState, i: int, j: int)
    requires
        s.wf(),
        0 <= i < s.workers.len(),
        0 <= j < s.workers.len(),
        s.workers[i].alive,
        s.workers[j].alive,
        s.workers[i].tag == s.workers[j].tag,
    ensures
        i == j,
{
    assert(s.entry(s.workers[i].tag) == Some(i as nat));
    assert(s.entry(s.workers[j].tag) == Some(j as nat));
}

/// A submission touches nothing beyond its own tag: the other tag's entry,
/// and the record of the worker serving it, stay exactly as they were —
/// interleaved calls cannot talk across tags.
pub proof fn lemma_no_cross_tag_interference(s: DispState, m1: ComModel, m2: ComModel)
    requires
        s.wf(),
        m1 != m2,
    ensures
        ({
            let (s1, w) = s.submit(m1);
            &&& s1.entry(m2) == s.entry(m2)
            &&& s.has_live(m2) ==> s1.workers[s.entry(m2)->0 as int] == s.workers[s.entry(
                m2,
            )->0 as int]
        }),
{
    lemma_acquire_wf(s, m1);
    lemma_submit_wf(s, m1);
    let (s1, w) = s.submit(m1);
    if s.has_live(m2) {
        let i = s.entry(m2)->0;
        assert(s.workers[i as int].tag == m2);
        assert(s.acquire(m1).0.workers[w as int].tag == m1);
        assert(s.acquire(m1).0.workers[i as int] == s.workers[i as int]);
        assert(i != w);
    }
}

/// Recovery from a dead worker: after a tag's worker terminates abnormally,
/// the next submission for the tag succeeds on a freshly spawned worker —
/// the stale entry is detected and replaced, never handed out again.
pub proof fn lemma_dead_worker_recovery(s: DispState, m: ComModel)
    requires
        s.wf(),
    ensures
        ({
            let st = s.terminate(m);
            let (s1, w) = st.submit(m);
            &&& w == s.workers.len()
            &&& s1.workers[w as int].alive
            &&& s1.workers[w as int].tag == m
            &&& s1.workers[w as int].log == seq![s.next_seq]
            &&& s.entry(m) is Some ==> w != s.entry(m)->0
        }),
{
    lemma_terminate_wf(s, m);
    let st = s.terminate(m);
    lemma_acquire_wf(st, m);
    lemma_submit_wf(st, m);
    let (s1, w) = st.submit(m);
    assert(!st.has_live(m));
    assert(s1.workers[w as int].log =~= seq![s.next_seq]);
}

} // verus!
