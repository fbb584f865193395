//! A spin lock and a lock-free counter on std's atomics, one attempt at a
//! time.
//!
//! What an atomic holds is other threads' business as much as ours, so the
//! attempts promise nothing of their outcome. The caller repeats them.

use vstd::prelude::*;
use std::sync::atomic::{AtomicBool, AtomicUsize};

verus! {

/// Whether an attempt to flip the flag from clear to set took the lock: it
/// did when the exchange succeeded, and did not when the flag was found set.
pub open spec fn lock_taken(outcome: Result<bool, bool>) -> bool {
    outcome is Ok
}

/// Whether an attempt to flip the flag took the lock.
pub fn after_lock_attempt(outcome: Result<bool, bool>) -> (taken: bool)
    ensures
        taken == lock_taken(outcome),
{
    match outcome {
        Ok(_) => true,
        Err(_) => false,
    }
}

/// A lock that is taken by flipping a flag.
pub struct SpinLock {
    /// Whether the lock is held.
    locked: AtomicBool,
}

impl SpinLock {
    /// An unlocked lock.
    pub fn new() -> SpinLock {
        SpinLock { locked: AtomicBool::new(false) }
    }

    /// Tries once to take the lock: flips the flag from clear to set, and
    /// says whether it did. To lock, repeat until it succeeds.
    pub fn try_lock(&self) -> (taken: bool) {
        after_lock_attempt(
            self.locked.compare_exchange(
                false,
                true,
                std::sync::atomic::Ordering::Acquire,
                std::sync::atomic::Ordering::Relaxed,
            ),
        )
    }

    /// Releases the lock.
    pub fn unlock(&self) {
        self.locked.store(false, std::sync::atomic::Ordering::Release);
    }
}

/// What to do after an attempt to replace the counter's value: nothing more
/// when it succeeded, otherwise try again from the value that was found.
pub open spec fn retry_from(outcome: Result<usize, usize>) -> Option<usize> {
    match outcome {
        Ok(_) => None,
        Err(found) => Some(found),
    }
}

/// What to do after an attempt to replace the counter's value.
pub fn after_attempt(outcome: Result<usize, usize>) -> (again: Option<usize>)
    ensures
        again == retry_from(outcome),
{
    match outcome {
        Ok(_) => None,
        Err(found) => Some(found),
    }
}

/// A counter that several threads may increment.
pub struct Counter {
    value: AtomicUsize,
}

impl Counter {
    /// A counter at zero.
    pub fn new() -> Counter {
        Counter { value: AtomicUsize::new(0) }
    }

    /// Tries once to go from `current` to `current + 1`. `None` means that
    /// the counter was incremented; `Some` holds the value that the counter
    /// had instead of `current`, to try again from.
    pub fn try_increment(&self, current: usize) -> (again: Option<usize>)
        requires
            current < usize::MAX,
    {
        let new = current + 1;
        after_attempt(
            self.value.compare_exchange(
                current,
                new,
                std::sync::atomic::Ordering::SeqCst,
                std::sync::atomic::Ordering::Relaxed,
            ),
        )
    }

    /// The counter's value at some moment of the call.
    pub fn get(&self) -> usize {
        self.value.load(std::sync::atomic::Ordering::Relaxed)
    }
}

} // verus!
