//! Trusted interface to the tokio primitives that carry the runtime's
//! mailboxes and workers: the unbounded multi-producer/single-consumer
//! queue and the handle to a spawned task.

use vstd::prelude::*;
use crate::agent::SendError;

verus! {

/// The producer end of tokio's unbounded mpsc queue, carried opaquely.
#[verifier::external_type_specification]
#[verifier::external_body]
#[verifier::reject_recursive_types(T)]
pub struct ExUnboundedSender<T>(tokio::sync::mpsc::UnboundedSender<T>);

/// The consumer end of tokio's unbounded mpsc queue, carried opaquely
/// through to the worker shell that drains it.
#[verifier::external_type_specification]
#[verifier::external_body]
#[verifier::reject_recursive_types(T)]
pub struct ExUnboundedReceiver<T>(tokio::sync::mpsc::UnboundedReceiver<T>);

/// tokio's handle to a spawned task, carried opaquely; the library only
/// ever asks it to abort.
#[verifier::external_type_specification]
#[verifier::external_body]
#[verifier::reject_recursive_types(T)]
pub struct ExJoinHandle<T>(tokio::task::JoinHandle<T>);

/// tokio's join error, named only because awaiting a handle mentions it.
#[verifier::external_type_specification]
#[verifier::external_body]
pub struct ExJoinError(tokio::task::JoinError);

/// Relies on tokio::sync::mpsc::unbounded_channel: hands back the producer
/// and consumer ends of a fresh unbounded queue; nothing further is assumed
/// of the pair.
pub assume_specification<T>[ tokio::sync::mpsc::unbounded_channel::<T> ]() -> (
    tokio::sync::mpsc::UnboundedSender<T>,
    tokio::sync::mpsc::UnboundedReceiver<T>,
);

/// Relies on tokio::task::JoinHandle::abort: asks the runtime to cancel the
/// task; it returns at once and promises nothing observable here.
pub assume_specification<T>[ tokio::task::JoinHandle::<T>::abort ](
    handle: &tokio::task::JoinHandle<T>,
);

/// Relies on Clone for tokio::sync::mpsc::UnboundedSender: the clone is one
/// more producer handle onto the same queue.
pub assume_specification<T>[ <tokio::sync::mpsc::UnboundedSender<T> as Clone>::clone ](
    chan: &tokio::sync::mpsc::UnboundedSender<T>,
) -> tokio::sync::mpsc::UnboundedSender<T>;

/// Relies on tokio::sync::mpsc::UnboundedSender::send: the message is queued
/// while the consumer half is still open; once the consumer is gone, the
/// very message that was offered comes back inside the error.
#[verifier::external_body]
pub(crate) fn enqueue<M>(
    chan: &tokio::sync::mpsc::UnboundedSender<M>,
    message: M,
) -> (r: Result<(), SendError<M>>)
    ensures
        r matches Err(e) ==> e.0 == message,
{
    chan.send(message).map_err(|e| SendError(e.0))
}

} // verus!
