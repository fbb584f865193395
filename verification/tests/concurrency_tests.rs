use std::sync::atomic::{AtomicUsize, Ordering};
use std::sync::Arc;

use threadpool::concurrency::{after_attempt, after_lock_attempt, Counter, SpinLock};

fn lock(lock: &SpinLock) {
    while !lock.try_lock() {
        std::hint::spin_loop();
    }
}

fn increment(counter: &Counter) {
    let mut current = counter.get();
    while let Some(found) = counter.try_increment(current) {
        current = found;
        std::hint::spin_loop();
    }
}

#[test]
fn test_concurrency_spinlock() {
    let spin = Arc::new(SpinLock::new());
    let counter = Arc::new(AtomicUsize::new(0));

    crossbeam::thread::scope(|s| {
        for _ in 0..4 {
            let spin = Arc::clone(&spin);
            let counter = Arc::clone(&counter);
            s.spawn(move |_| {
                for _ in 0..10000 {
                    lock(&spin);
                    counter.fetch_add(1, Ordering::Relaxed);
                    spin.unlock();
                }
            });
        }
    })
    .unwrap();

    assert_eq!(counter.load(Ordering::Relaxed), 40000);
}

#[test]
fn test_concurrency_counter() {
    let counter = Arc::new(Counter::new());

    crossbeam::thread::scope(|s| {
        for _ in 0..4 {
            let counter = counter.clone();
            s.spawn(move |_| {
                for _ in 0..10000 {
                    increment(&counter);
                }
            });
        }
    })
    .unwrap();

    assert_eq!(counter.get(), 40000);
}

#[test]
fn a_held_lock_cannot_be_taken() {
    let spin = SpinLock::new();
    assert!(spin.try_lock());
    assert!(!spin.try_lock());
    spin.unlock();
    assert!(spin.try_lock());
}

#[test]
fn an_increment_from_a_stale_value_reports_the_current_one() {
    let counter = Counter::new();
    assert_eq!(counter.get(), 0);
    assert_eq!(counter.try_increment(0), None);
    assert_eq!(counter.get(), 1);
    assert_eq!(counter.try_increment(0), Some(1));
    assert_eq!(counter.get(), 1);
    assert_eq!(counter.try_increment(1), None);
    assert_eq!(counter.get(), 2);
}

#[test]
fn the_lock_is_taken_when_the_exchange_succeeds() {
    assert!(after_lock_attempt(Ok(false)));
    assert!(!after_lock_attempt(Err(true)));
}

#[test]
fn an_attempt_is_repeated_from_the_value_found() {
    assert_eq!(after_attempt(Ok(4)), None);
    assert_eq!(after_attempt(Err(9)), Some(9));
}

#[test]
fn test_concurrency_mpsc_channel_drop_rx() {
    let (tx, rx) = std::sync::mpsc::channel();
    drop(rx);

    assert_eq!(tx.send(7), Err(std::sync::mpsc::SendError(7)));
}

#[test]
fn test_concurrency_mpsc_channel_drop_tx() {
    let (tx, rx) = std::sync::mpsc::channel();

    tx.send(7).unwrap();
    drop(tx);

    assert_eq!(rx.recv(), Ok(7));
    assert_eq!(rx.recv(), Err(std::sync::mpsc::RecvError));
}

#[test]
fn test_concurrency_mpsc_channel_try_recv() {
    let (tx, rx) = std::sync::mpsc::channel::<()>();
    drop(tx);

    assert_eq!(rx.try_recv(), Err(std::sync::mpsc::TryRecvError::Disconnected));
}
