use std::cell::{Cell, RefCell};
use std::time::Duration;

use backon::backoff::{Backoff, BackoffBuilder, ListBackoff};
use backon::blocking_retry_with_context::BlockingRetryableWithContext;
use backon::policy::{AlwaysRetryable, NoNotify, RetryCondition, RetryNotifier};

struct Test;

impl Test {
    fn hello(&mut self) -> Result<usize, String> {
        Err("not retryable".to_string())
    }
}

fn ms(n: u64) -> Duration {
    Duration::from_millis(n)
}

fn delays(ns: &[u64]) -> ListBackoff {
    ListBackoff::new(ns.iter().map(|n| ms(*n)).collect())
}

#[test]
fn test_retry_with_not_retryable_error() {
    let error_times = Cell::new(0);
    let slept = RefCell::new(Vec::new());

    let test = Test;

    let backoff = delays(&[1, 2, 4]);

    let (_, result) = {
        |mut v: Test| {
            error_times.set(error_times.get() + 1);

            let res = v.hello();
            (v, res)
        }
    }
    .retry(backoff)
    .context(test)
    .sleep(|d: Duration| slept.borrow_mut().push(d))
    // Only retry if the error message is `retryable`
    .when(|e: &String| e == "retryable")
    .call();

    assert!(result.is_err());
    assert_eq!("not retryable", result.unwrap_err());
    // `f` always returns error "not retryable", so it should be executed
    // only once.
    assert_eq!(error_times.get(), 1);
    assert!(slept.borrow().is_empty());
}

#[test]
fn succeeds_on_third_attempt_after_two_notified_retries() {
    let calls = Cell::new(0u32);
    let notified: RefCell<Vec<(String, Duration)>> = RefCell::new(Vec::new());
    let slept = RefCell::new(Vec::new());

    let (ctx, result) = (|n: u32| {
        calls.set(calls.get() + 1);
        if n + 1 < 3 {
            (n + 1, Err("retryable".to_string()))
        } else {
            (n + 1, Ok(42))
        }
    })
    .retry(delays(&[1, 2, 4, 8]))
    .context(0u32)
    .sleep(|d: Duration| slept.borrow_mut().push(d))
    .when(|e: &String| e == "retryable")
    .notify(|e: &String, d: Duration| notified.borrow_mut().push((e.clone(), d)))
    .call();

    assert_eq!(result, Ok(42));
    assert_eq!(calls.get(), 3);
    assert_eq!(ctx, 3);
    assert_eq!(
        *notified.borrow(),
        vec![("retryable".to_string(), ms(1)), ("retryable".to_string(), ms(2))]
    );
    assert_eq!(*slept.borrow(), vec![ms(1), ms(2)]);
}

#[test]
fn fatal_error_is_returned_after_one_attempt() {
    let calls = Cell::new(0u32);
    let notified = Cell::new(0u32);
    let slept = RefCell::new(Vec::new());

    let (_, result): (u32, Result<u32, String>) = (|n: u32| {
        calls.set(calls.get() + 1);
        (n, Err("fatal".to_string()))
    })
    .retry(delays(&[1, 2, 4]))
    .context(0u32)
    .sleep(|d: Duration| slept.borrow_mut().push(d))
    .when(|e: &String| e == "retryable")
    .notify(|_: &String, _: Duration| notified.set(notified.get() + 1))
    .call();

    assert_eq!(result, Err("fatal".to_string()));
    assert_eq!(calls.get(), 1);
    assert_eq!(notified.get(), 0);
    assert!(slept.borrow().is_empty());
}

#[test]
fn exhausted_backoff_returns_error_of_last_attempt() {
    let slept = RefCell::new(Vec::new());

    let (ctx, result): (u32, Result<u32, String>) =
        (|n: u32| (n + 1, Err(format!("failure {}", n + 1))))
            .retry(delays(&[5, 6, 7]))
            .context(0u32)
            .sleep(|d: Duration| slept.borrow_mut().push(d))
            .call();

    assert_eq!(result, Err("failure 4".to_string()));
    assert_eq!(ctx, 4);
    assert_eq!(*slept.borrow(), vec![ms(5), ms(6), ms(7)]);
}

#[test]
fn empty_backoff_makes_a_single_attempt() {
    let slept = RefCell::new(Vec::new());

    let (ctx, result): (u32, Result<u32, String>) = (|n: u32| (n + 1, Err("retryable".to_string())))
        .retry(delays(&[]))
        .context(7u32)
        .sleep(|d: Duration| slept.borrow_mut().push(d))
        .call();

    assert_eq!(result, Err("retryable".to_string()));
    assert_eq!(ctx, 8);
    assert!(slept.borrow().is_empty());
}

#[test]
fn zero_duration_still_counts_as_a_retry() {
    let notified = Cell::new(0u32);
    let slept = RefCell::new(Vec::new());

    let (ctx, result) = (|n: u32| {
        if n == 0 {
            (n + 1, Err("retryable".to_string()))
        } else {
            (n + 1, Ok(n))
        }
    })
    .retry(delays(&[0]))
    .context(0u32)
    .sleep(|d: Duration| slept.borrow_mut().push(d))
    .notify(|_: &String, _: Duration| notified.set(notified.get() + 1))
    .call();

    assert_eq!(result, Ok(1));
    assert_eq!(ctx, 2);
    assert_eq!(notified.get(), 1);
    assert_eq!(*slept.borrow(), vec![ms(0)]);
}

#[test]
fn context_mutations_of_failed_attempts_are_kept() {
    let slept = RefCell::new(Vec::new());

    let (ctx, result): (Vec<u32>, Result<u32, String>) = (|mut seen: Vec<u32>| {
        let k = seen.len() as u32 + 1;
        seen.push(k);
        if k < 5 {
            (seen, Err("retryable".to_string()))
        } else {
            (seen, Ok(k))
        }
    })
    .retry(delays(&[1, 1, 1, 1, 1, 1]))
    .context(Vec::new())
    .sleep(|d: Duration| slept.borrow_mut().push(d))
    .call();

    assert_eq!(result, Ok(5));
    assert_eq!(ctx, vec![1, 2, 3, 4, 5]);
    assert_eq!(slept.borrow().len(), 4);
}

#[test]
fn configuration_order_does_not_change_behaviour() {
    let run = |order: u32| -> (u32, Result<u32, String>, Vec<(String, Duration)>, Vec<Duration>) {
        let notified = RefCell::new(Vec::new());
        let slept = RefCell::new(Vec::new());
        let op = |n: u32| {
            if n < 2 {
                (n + 1, Err("retryable".to_string()))
            } else {
                (n + 1, Ok(n * 10))
            }
        };
        let cond = |e: &String| e == "retryable";
        let hook = |e: &String, d: Duration| notified.borrow_mut().push((e.clone(), d));
        let sleeper = |d: Duration| slept.borrow_mut().push(d);
        let exec = op.retry(delays(&[3, 4, 5])).context(0u32);
        let (ctx, result) = match order {
            0 => exec.when(cond).notify(hook).sleep(sleeper).call(),
            1 => exec.sleep(sleeper).notify(hook).when(cond).call(),
            _ => exec.notify(hook).sleep(sleeper).when(cond).call(),
        };
        let n = notified.borrow().clone();
        let s = slept.borrow().clone();
        (ctx, result, n, s)
    };
    let first = run(0);
    assert_eq!(first.1, Ok(20));
    assert_eq!(first.0, 3);
    assert_eq!(first.3, vec![ms(3), ms(4)]);
    assert_eq!(run(1), first);
    assert_eq!(run(2), first);
}

#[test]
fn list_backoff_hands_out_its_durations_then_stops() {
    let mut b = delays(&[1, 2]).build();
    assert_eq!(b.next(), Some(ms(1)));
    assert_eq!(b.next(), Some(ms(2)));
    assert_eq!(b.next(), None);
    assert_eq!(b.next(), None);
}

#[test]
fn default_policy_retries_everything_and_notifies_nothing() {
    let mut cond = AlwaysRetryable;
    assert!(RetryCondition::<String>::check(&mut cond, &"anything".to_string()));
    let mut hook = NoNotify;
    RetryNotifier::<String>::notify(&mut hook, &"anything".to_string(), ms(1));
}

#[test]
fn notify_comes_before_each_pause() {
    let log: RefCell<Vec<String>> = RefCell::new(Vec::new());

    let (_, result): (u32, Result<u32, String>) = (|n: u32| (n + 1, Err(format!("e{}", n + 1))))
        .retry(delays(&[1, 2]))
        .context(0u32)
        .sleep(|d: Duration| log.borrow_mut().push(format!("sleep {}", d.as_millis())))
        .notify(|e: &String, d: Duration| {
            log.borrow_mut().push(format!("notify {} {}", e, d.as_millis()))
        })
        .call();

    assert_eq!(result, Err("e3".to_string()));
    assert_eq!(
        *log.borrow(),
        vec![
            "notify e1 1".to_string(),
            "sleep 1".to_string(),
            "notify e2 2".to_string(),
            "sleep 2".to_string()
        ]
    );
}
