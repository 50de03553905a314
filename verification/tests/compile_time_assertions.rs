// The submission paths bound their closures and results by `Send + 'static`:
// a task moves to a worker, and its result moves back, so neither may borrow
// from the caller's stack nor carry a thread-bound handle. These tests pin
// the valid side of that contract; the invalid side (an `Rc`, a borrowed
// `&str`) is rejected by the compiler and cannot be written down here.

use std::sync::Arc;

use callcomapi::call_async;
use callcomapi::call_sync;
use callcomapi::ComModel;
use callcomapi::Dispatcher;

fn sync_with_string(d: &mut Dispatcher, s: String) -> i32 {
    call_sync(d, ComModel::STA, move || s.len() as i32)
}

fn async_with_arc(d: &mut Dispatcher, data: Arc<Vec<i32>>) -> usize {
    call_async(d, ComModel::STA, move || data.len()).wait()
}

fn mta_with_primitives(d: &mut Dispatcher, x: i32, y: String) -> String {
    call_sync(d, ComModel::MTA, move || format!("{}{}", x, y))
}

#[test]
fn test_valid_send_types() {
    // Valid: String is Send + 'static
    let mut d = Dispatcher::new();
    let result = sync_with_string(&mut d, "hello".to_string());
    assert_eq!(result, 5);
}

#[test]
fn test_async_valid_send_types() {
    // Valid: Arc<Vec<i32>> is Send + 'static
    let mut d = Dispatcher::new();
    let result = async_with_arc(&mut d, Arc::new(vec![1, 2, 3]));
    assert_eq!(result, 3);
}

#[test]
fn test_mta_valid_send_types() {
    let mut d = Dispatcher::new();
    let result = mta_with_primitives(&mut d, 1, "x".to_string());
    assert_eq!(result, "1x");
}

#[test]
fn test_constraint_documentation() {
    // All task parameters and results must:
    // 1. Implement Send (safe to move across threads)
    // 2. Have 'static lifetime (no borrowed references)
    println!("Compile-time Send + 'static constraints enforced!");
}
