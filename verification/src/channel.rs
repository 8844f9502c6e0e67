//! The message-passing endpoints that connect callers to the store's worker.
//!
//! Everything in this file is taken on trust: the channel is a concurrent
//! object whose behaviour depends on what other threads do, so none of the
//! declarations below promises anything about a result.

use crossbeam::channel::{Receiver, RecvError, SendError, Sender};
use vstd::prelude::*;

verus! {

/// `crossbeam::channel::Sender`, the sending half of a channel. Opaque.
#[verifier::external_type_specification]
#[verifier::external_body]
#[verifier::reject_recursive_types(T)]
pub struct ExSender<T>(Sender<T>);

/// `crossbeam::channel::Receiver`, the receiving half of a channel. Opaque.
#[verifier::external_type_specification]
#[verifier::external_body]
#[verifier::reject_recursive_types(T)]
pub struct ExReceiver<T>(Receiver<T>);

/// `crossbeam::channel::SendError`, returned by `send` when every receiver is
/// gone. Opaque.
#[verifier::external_type_specification]
#[verifier::external_body]
#[verifier::reject_recursive_types(T)]
pub struct ExSendError<T>(SendError<T>);

/// `crossbeam::channel::RecvError`, returned by `recv` when the channel is
/// empty and every sender is gone. Opaque.
#[verifier::external_type_specification]
#[verifier::external_body]
pub struct ExRecvError(RecvError);

/// `crossbeam::channel::unbounded`: a fresh channel with a growable buffer.
/// Nothing is claimed of the two endpoints.
pub assume_specification<T>[ crossbeam::channel::unbounded::<T> ]() -> (ends: (
    Sender<T>,
    Receiver<T>,
));

/// `crossbeam::channel::Sender::send`: hands `msg` to the channel, or returns
/// it inside the error when the channel is disconnected. Which of the two
/// happens depends on the other side, so nothing is claimed of the result.
pub assume_specification<T>[ Sender::<T>::send ](sender: &Sender<T>, msg: T) -> (sent: Result<
    (),
    SendError<T>,
>);

/// `crossbeam::channel::Receiver::recv`: blocks until a message arrives or the
/// channel is empty and disconnected. What arrives depends on the senders, so
/// nothing is claimed of the result.
pub assume_specification<T>[ Receiver::<T>::recv ](receiver: &Receiver<T>) -> (received: Result<
    T,
    RecvError,
>);

} // verus!
