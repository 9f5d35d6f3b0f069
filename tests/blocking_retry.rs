use std::cell::{Cell, RefCell};
use std::time::Duration;

use backon::backoff::ListBackoff;
use backon::blocking_retry::BlockingRetry;

fn list(ns: &[u64]) -> ListBackoff {
    ListBackoff::new(ns.iter().map(|n| Duration::from_millis(*n)).collect())
}

#[test]
fn plain_operation_succeeds_on_third_attempt() {
    let calls = Cell::new(0u32);
    let notified: RefCell<Vec<(String, Duration)>> = RefCell::new(Vec::new());
    let slept = RefCell::new(Vec::new());

    let result = BlockingRetry::new(
        || {
            calls.set(calls.get() + 1);
            if calls.get() < 3 {
                Err("retryable".to_string())
            } else {
                Ok(42)
            }
        },
        list(&[1, 2, 4]),
    )
    .sleep(|d: Duration| slept.borrow_mut().push(d))
    .when(|e: &String| e == "retryable")
    .notify(|e: &String, d: Duration| notified.borrow_mut().push((e.clone(), d)))
    .call();

    assert_eq!(result, Ok(42));
    assert_eq!(calls.get(), 3);
    assert_eq!(
        *notified.borrow(),
        vec![
            ("retryable".to_string(), Duration::from_millis(1)),
            ("retryable".to_string(), Duration::from_millis(2))
        ]
    );
    assert_eq!(slept.borrow().len(), 2);
}

#[test]
fn plain_operation_with_fatal_error_runs_once() {
    let calls = Cell::new(0u32);
    let slept = RefCell::new(Vec::new());

    let result: Result<u32, String> = BlockingRetry::new(
        || {
            calls.set(calls.get() + 1);
            Err("fatal".to_string())
        },
        list(&[1, 2, 4]),
    )
    .sleep(|d: Duration| slept.borrow_mut().push(d))
    .when(|e: &String| e == "retryable")
    .call();

    assert_eq!(result, Err("fatal".to_string()));
    assert_eq!(calls.get(), 1);
    assert!(slept.borrow().is_empty());
}

#[test]
fn plain_operation_exhausts_backoff() {
    let calls = Cell::new(0u32);
    let slept = RefCell::new(Vec::new());

    let result: Result<u32, String> = BlockingRetry::new(
        || {
            calls.set(calls.get() + 1);
            Err(format!("attempt {}", calls.get()))
        },
        list(&[1, 1]),
    )
    .sleep(|d: Duration| slept.borrow_mut().push(d))
    .call();

    assert_eq!(result, Err("attempt 3".to_string()));
    assert_eq!(calls.get(), 3);
    assert_eq!(slept.borrow().len(), 2);
}
