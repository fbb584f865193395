//! What the pool assumes of `crossbeam::channel`.
//!
//! The queue is shared between threads, so nothing here speaks of what it
//! holds: every statement is one that is true whatever the other endpoints do.

use vstd::prelude::*;
use crossbeam::channel::{Receiver, RecvError, SendError, Sender};

verus! {

/// The producing endpoint of a channel. Its inside is not modelled.
#[verifier::external_type_specification]
#[verifier::external_body]
#[verifier::reject_recursive_types(T)]
pub struct ExSender<T>(Sender<T>);

/// The consuming endpoint of a channel. Its inside is not modelled.
#[verifier::external_type_specification]
#[verifier::external_body]
#[verifier::reject_recursive_types(T)]
pub struct ExReceiver<T>(Receiver<T>);

/// The error of `Sender::send`, which carries the message that was not sent.
#[verifier::external_type_specification]
#[verifier::reject_recursive_types(T)]
pub struct ExSendError<T>(SendError<T>);

/// The error of `Receiver::recv`: the channel is empty and disconnected.
#[verifier::external_type_specification]
#[verifier::external_body]
pub struct ExRecvError(RecvError);

/// `crossbeam::channel::unbounded`: a new channel and its two endpoints.
/// Nothing is claimed of them.
pub assume_specification<T>[ crossbeam::channel::unbounded::<T> ]() -> (ends: (
    Sender<T>,
    Receiver<T>,
));

/// `Sender::send`: on an unbounded channel the message is queued, or, when no
/// consuming endpoint is left, handed back inside the error. Claimed: an
/// error holds the very message that was given.
pub assume_specification<T>[ Sender::<T>::send ](sender: &Sender<T>, msg: T) -> (sent: Result<
    (),
    SendError<T>,
>)
    ensures
        sent matches Err(e) ==> e.0 == msg,
;

/// `Receiver::recv`: waits for a message, or fails once the channel is empty
/// and every producing endpoint is gone. Nothing is claimed of which.
pub assume_specification<T>[ Receiver::<T>::recv ](receiver: &Receiver<T>) -> (got: Result<
    T,
    RecvError,
>);

/// `Receiver::clone`: one more consuming endpoint of the same channel.
/// Nothing is claimed of it.
pub assume_specification<T>[ <Receiver<T> as Clone>::clone ](receiver: &Receiver<T>) -> (other:
    Receiver<T>);

} // verus!
