//! The pool: the one retained producing endpoint of the queue and the fixed
//! number of workers that consume from it.

use vstd::prelude::*;
use crossbeam::channel::{SendError, Sender};
use crate::worker::{Worker, WorkerState};

verus! {

/// Why a task was not accepted.
#[derive(Clone, Copy, Debug, PartialEq, Eq, Structural)]
pub enum PoolError {
    /// Shutdown has begun: the pool takes no more tasks. The caller is
    /// expected to handle this.
    PoolClosed,
    /// The pool is open but no consuming endpoint is left on the queue. This
    /// cannot happen while every worker is alive, and is not recoverable.
    QueueClosed,
}

/// What a submission comes to: refused with `PoolClosed` once shutdown has
/// begun, accepted when the queue took the task, `QueueClosed` otherwise.
pub open spec fn submit_outcome(open: bool, delivered: bool) -> Result<(), PoolError> {
    if !open {
        Err(PoolError::PoolClosed)
    } else if delivered {
        Ok(())
    } else {
        Err(PoolError::QueueClosed)
    }
}

/// The result of a submission to an open pool, given what the queue said.
pub fn delivery<T>(sent: Result<(), SendError<T>>) -> (r: Result<(), PoolError>)
    ensures
        r == submit_outcome(true, sent is Ok),
{
    match sent {
        Ok(_) => Ok(()),
        Err(_) => Err(PoolError::QueueClosed),
    }
}

/// A pool of a fixed number of workers. `T` is the task: whatever the
/// caller's threads know how to execute.
#[verifier::reject_recursive_types(T)]
pub struct ThreadPool<T> {
    /// The producing endpoint, until shutdown releases it.
    sender: Option<Sender<T>>,
    /// How many workers the pool was made with.
    size: usize,
}

impl<T> ThreadPool<T> {
    /// Whether the pool still holds its producing endpoint, that is, whether
    /// shutdown has not begun.
    pub closed spec fn is_open(&self) -> bool {
        self.sender is Some
    }

    /// The number of workers the pool was made with.
    pub closed spec fn size(&self) -> nat {
        self.size as nat
    }

    /// Makes the queue and `num_threads` workers on it. The pool keeps the
    /// only producing endpoint; each worker gets a consuming endpoint of its
    /// own, and no other endpoint outlives this call. Each worker is meant to
    /// be run on a thread of its own.
    pub fn new(num_threads: usize) -> (pool: (ThreadPool<T>, Vec<Worker<T>>))
        requires
            num_threads >= 1,
        ensures
            pool.0.is_open(),
            pool.0.size() == num_threads,
            pool.1@.len() == num_threads,
            forall|i: int| 0 <= i < pool.1@.len() ==> (#[trigger] pool.1@[i]).state() is Running,
    {
        let (sender, receiver) = crossbeam::channel::unbounded::<T>();
        let mut workers: Vec<Worker<T>> = Vec::new();
        let mut made: usize = 0;
        while made < num_threads
            invariant
                made <= num_threads,
                workers@.len() == made,
                forall|i: int| 0 <= i < workers@.len() ==> (#[trigger] workers@[i]).state() is Running,
            decreases num_threads - made,
        {
            workers.push(Worker::new(receiver.clone()));
            made = made + 1;
        }
        (ThreadPool { sender: Some(sender), size: num_threads }, workers)
    }

    /// Whether shutdown has not begun.
    pub fn accepts_tasks(&self) -> (open: bool)
        ensures
            open == self.is_open(),
    {
        self.sender.is_some()
    }

    /// The number of workers.
    pub fn worker_count(&self) -> (n: usize)
        ensures
            n == self.size(),
    {
        self.size
    }

    /// Hands a task to the queue and returns without waiting for it to run.
    /// After shutdown has begun the task is refused with `PoolClosed` and
    /// the queue is not touched. While the pool is open the queue decides:
    /// it takes the task, unless no worker is left to receive it.
    pub fn execute(&self, task: T) -> (r: Result<(), PoolError>)
        ensures
            exists|delivered: bool| r == submit_outcome(self.is_open(), delivered),
            !self.is_open() ==> r == Err::<(), PoolError>(PoolError::PoolClosed),
            self.is_open() ==> r == Ok::<(), PoolError>(()) || r == Err::<(), PoolError>(
                PoolError::QueueClosed,
            ),
    {
        match &self.sender {
            None => {
                assert(submit_outcome(self.is_open(), false) == Err::<(), PoolError>(
                    PoolError::PoolClosed,
                ));
                Err(PoolError::PoolClosed)
            },
            Some(sender) => {
                let sent = sender.send(task);
                assert(submit_outcome(self.is_open(), sent is Ok) == submit_outcome(
                    true,
                    sent is Ok,
                ));
                delivery(sent)
            },
        }
    }

    /// Begins shutdown: releases the producing endpoint, so that the queue
    /// reports closure to each worker once it is drained. Tasks that are
    /// queued are not withdrawn. Returns whether this call was the one that
    /// released the endpoint; whoever runs the workers then waits for each
    /// of them to terminate. A second call changes nothing.
    pub fn shutdown(&mut self) -> (released: bool)
        ensures
            !final(self).is_open(),
            final(self).size() == old(self).size(),
            released == old(self).is_open(),
            !old(self).is_open() ==> *final(self) == *old(self),
        opens_invariants none
        no_unwind
    {
        let released = match &self.sender {
            Some(_) => true,
            None => false,
        };
        self.sender = None;
        released
    }
}

impl<T> Drop for ThreadPool<T> {
    /// Discarding the pool begins shutdown, if it has not begun yet: the
    /// producing endpoint is released just as `shutdown` releases it, so
    /// the workers drain the queue and then terminate.
    fn drop(&mut self)
        ensures
            !final(self).is_open(),
            final(self).size() == old(self).size(),
        opens_invariants none
        no_unwind
    {
        self.shutdown();
    }
}

} // verus!
