use callcomapi::call_async;
use callcomapi::call_sync;
use callcomapi::ComModel;
use callcomapi::Dispatcher;

fn worker_of(d: &Dispatcher, model: ComModel) -> usize {
    d.worker_for(model).expect("a worker must be registered after a call")
}

fn sync_fn1(d: &mut Dispatcher, x: i32) -> (i32, usize) {
    let v = call_sync(d, ComModel::STA, move || x);
    (v, worker_of(d, ComModel::STA))
}

fn sync_fn2(d: &mut Dispatcher, x: i32) -> (i32, usize) {
    let v = call_sync(d, ComModel::STA, move || x);
    (v, worker_of(d, ComModel::STA))
}

#[test]
fn test_com_thread_sync() {
    let mut d = Dispatcher::new();
    let (v1, t1) = sync_fn1(&mut d, 1);
    let (v2, t2) = sync_fn2(&mut d, 2);
    assert_eq!(v1, 1);
    assert_eq!(v2, 2);
    assert_eq!(t1, t2);
}

fn async_fn1(d: &mut Dispatcher, x: i32) -> (i32, usize) {
    let v = call_async(d, ComModel::STA, move || x).wait();
    (v, worker_of(d, ComModel::STA))
}

fn async_fn2(d: &mut Dispatcher, x: i32) -> (i32, usize) {
    let v = call_async(d, ComModel::STA, move || x).wait();
    (v, worker_of(d, ComModel::STA))
}

#[test]
fn test_com_thread_async() {
    let mut d = Dispatcher::new();
    let (v1, t1) = async_fn1(&mut d, 1);
    let (v2, t2) = async_fn2(&mut d, 2);
    assert_eq!(v1, 1);
    assert_eq!(v2, 2);
    assert_eq!(t1, t2);
}

fn sync_fn_mta(d: &mut Dispatcher, x: i32) -> (i32, usize) {
    let v = call_sync(d, ComModel::MTA, move || x);
    (v, worker_of(d, ComModel::MTA))
}

#[test]
fn test_com_thread_sync_mta() {
    let mut d = Dispatcher::new();
    let (v1, t1) = sync_fn_mta(&mut d, 1);
    let (v2, t2) = sync_fn_mta(&mut d, 2);
    assert_eq!(v1, 1);
    assert_eq!(v2, 2);
    assert_eq!(t1, t2);
}

fn async_fn_mta(d: &mut Dispatcher, x: i32) -> (i32, usize) {
    let v = call_async(d, ComModel::MTA, move || x).wait();
    (v, worker_of(d, ComModel::MTA))
}

#[test]
fn test_com_thread_async_mta() {
    let mut d = Dispatcher::new();
    let (v1, t1) = async_fn_mta(&mut d, 1);
    let (v2, t2) = async_fn_mta(&mut d, 2);
    assert_eq!(v1, 1);
    assert_eq!(v2, 2);
    assert_eq!(t1, t2);
}

fn sync_fn_multi(d: &mut Dispatcher, x: i32, y: i32, z: String) -> (i32, i32, String, usize) {
    let (a, b, s) = call_sync(d, ComModel::STA, move || (x, y, z));
    (a, b, s, worker_of(d, ComModel::STA))
}

#[test]
fn test_com_thread_sync_multi() {
    let mut d = Dispatcher::new();
    let (a, b, s, t1) = sync_fn_multi(&mut d, 10, 20, "hello".to_string());
    let (_, _, _, t2) = sync_fn_multi(&mut d, 30, 40, "world".to_string());
    assert_eq!(a, 10);
    assert_eq!(b, 20);
    assert_eq!(s, "hello");
    assert_eq!(t1, t2);
}

fn async_fn_multi(d: &mut Dispatcher, x: i32, y: String) -> (i32, String, usize) {
    let (a, s) = call_async(d, ComModel::STA, move || (x, y)).wait();
    (a, s, worker_of(d, ComModel::STA))
}

#[test]
fn test_com_thread_async_multi() {
    let mut d = Dispatcher::new();
    let (a, s, t1) = async_fn_multi(&mut d, 99, "async".to_string());
    let (_, _, t2) = async_fn_multi(&mut d, 100, "test".to_string());
    assert_eq!(a, 99);
    assert_eq!(s, "async");
    assert_eq!(t1, t2);
}
