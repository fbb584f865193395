//! One worker: a consuming endpoint of the shared queue and a two-state
//! machine, `Running` until the queue reports closure and `Terminated` ever
//! after.

use vstd::prelude::*;
use crossbeam::channel::{Receiver, RecvError};

verus! {

/// Where a worker stands in its life.
#[derive(Clone, Copy, Debug, PartialEq, Eq, Structural)]
pub enum WorkerState {
    /// The worker receives and executes tasks.
    Running,
    /// The queue has reported closure to this worker. There is no way back.
    Terminated,
}

impl WorkerState {
    /// The state after one attempt to receive: a running worker that got a
    /// task goes on running, one that got the closed signal terminates, and a
    /// terminated worker stays terminated.
    pub open spec fn after(self, received: bool) -> WorkerState {
        match self {
            WorkerState::Running => if received {
                WorkerState::Running
            } else {
                WorkerState::Terminated
            },
            WorkerState::Terminated => WorkerState::Terminated,
        }
    }
}

/// What a worker does with the outcome of a receive: `Ok` is a task to
/// execute to completion before receiving again, `Err` is the closed signal.
pub fn react<T>(state: WorkerState, event: Result<T, RecvError>) -> (next: (WorkerState, Option<T>))
    ensures
        next.0 == state.after(event is Ok && state is Running),
        next.1 is Some <==> (state is Running && event is Ok),
        next.1 matches Some(task) ==> event == Ok::<T, RecvError>(task),
{
    match state {
        WorkerState::Terminated => (WorkerState::Terminated, None),
        WorkerState::Running => match event {
            Ok(task) => (WorkerState::Running, Some(task)),
            Err(_) => (WorkerState::Terminated, None),
        },
    }
}

/// A worker of the pool. It owns its endpoint, so the queue counts it as a
/// consumer until the worker is dropped.
#[verifier::reject_recursive_types(T)]
pub struct Worker<T> {
    receiver: Receiver<T>,
    state: WorkerState,
}

impl<T> Worker<T> {
    /// The worker's state.
    pub closed spec fn state(&self) -> WorkerState {
        self.state
    }

    /// A running worker on the given endpoint.
    pub fn new(receiver: Receiver<T>) -> (worker: Worker<T>)
        ensures
            worker.state() is Running,
    {
        Worker { receiver, state: WorkerState::Running }
    }

    /// Whether the worker has not yet seen the queue closed.
    pub fn is_running(&self) -> (running: bool)
        ensures
            running == (self.state() is Running),
    {
        match self.state {
            WorkerState::Running => true,
            WorkerState::Terminated => false,
        }
    }

    /// Waits for the next task. `Some` is a task that the caller must execute
    /// to completion before it asks again; `None` means that the queue is
    /// closed and the worker has terminated. A terminated worker never
    /// touches the queue again.
    pub fn next(&mut self) -> (task: Option<T>)
        ensures
            final(self).state() == old(self).state().after(task is Some),
            old(self).state() is Terminated ==> task is None,
            task is None ==> final(self).state() is Terminated,
    {
        match self.state {
            WorkerState::Terminated => None,
            WorkerState::Running => {
                let event = self.receiver.recv();
                let (state, task) = react(WorkerState::Running, event);
                self.state = state;
                task
            },
        }
    }
}

} // verus!
