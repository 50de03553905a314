use callcomapi::call_async;
use callcomapi::call_scoped;
use callcomapi::call_sync;
use callcomapi::ComGuard;
use callcomapi::ComModel;
use callcomapi::Dispatcher;

fn macro_with() {
    call_scoped(ComModel::STA, || ())
}

fn macro_thread(d: &mut Dispatcher) -> usize {
    call_sync(d, ComModel::STA, || ());
    d.worker_for(ComModel::STA).unwrap()
}

fn macro_thread_async(d: &mut Dispatcher) -> usize {
    call_async(d, ComModel::STA, || ()).wait();
    d.worker_for(ComModel::STA).unwrap()
}

// Many light calls in a row, over each acquisition style: per-call scoped
// guards, the scoped-call path, and the per-tag worker paths, which must
// keep executing on the one worker throughout.
#[test]
fn frequent_calls_comparison() {
    const ITER: usize = 100;

    for _ in 0..ITER {
        let _guard = ComGuard::new(ComModel::STA);
    }

    for _ in 0..ITER {
        macro_with();
    }

    let mut d = Dispatcher::new();

    let mut first_tid = None;
    for _ in 0..ITER {
        let tid = macro_thread(&mut d);
        if let Some(ft) = first_tid {
            assert_eq!(tid, ft, "com_thread 应该在相同线程上执行");
        } else {
            first_tid = Some(tid);
        }
    }

    let mut first_tid_async = None;
    for _ in 0..ITER {
        let tid = macro_thread_async(&mut d);
        if let Some(ft) = first_tid_async {
            assert_eq!(tid, ft, "com_thread async 应该在相同线程上执行");
        } else {
            first_tid_async = Some(tid);
        }
    }
}
