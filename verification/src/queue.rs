use vstd::prelude::*;

use crate::errors::{SendError, TryRecvError, TrySendError};

verus! {

/// `std::sync::mpsc::Sender<T>`: the producing half of an unbounded queue.
#[verifier::external_type_specification]
#[verifier::external_body]
#[verifier::reject_recursive_types(T)]
pub struct ExMpscSender<T>(std::sync::mpsc::Sender<T>);

/// `std::sync::mpsc::SyncSender<T>`: the producing half of a bounded queue.
#[verifier::external_type_specification]
#[verifier::external_body]
#[verifier::reject_recursive_types(T)]
pub struct ExMpscSyncSender<T>(std::sync::mpsc::SyncSender<T>);

/// `std::sync::mpsc::Receiver<T>`: the consuming half of a queue.
#[verifier::external_type_specification]
#[verifier::external_body]
#[verifier::reject_recursive_types(T)]
pub struct ExMpscReceiver<T>(std::sync::mpsc::Receiver<T>);

/// Relies on `std::sync::mpsc::channel`: a connected pair of halves of a
/// fresh unbounded FIFO queue.
#[verifier::external_body]
pub(crate) fn mpsc_channel<T>() -> (std::sync::mpsc::Sender<T>, std::sync::mpsc::Receiver<T>) {
    std::sync::mpsc::channel()
}

/// Relies on `std::sync::mpsc::sync_channel`: a connected pair of halves of
/// a fresh FIFO queue bounded at `bound` values in flight.
#[verifier::external_body]
pub(crate) fn mpsc_sync_channel<T>(bound: usize) -> (std::sync::mpsc::SyncSender<T>, std::sync::mpsc::Receiver<T>) {
    std::sync::mpsc::sync_channel(bound)
}

/// Relies on `std::sync::mpsc::Sender::send`: enqueues `t` without ever
/// blocking, in the order of this half's send calls; it fails exactly when
/// the receiving half was dropped, handing `t` back.
#[verifier::external_body]
pub(crate) fn mpsc_send<T>(tx: &std::sync::mpsc::Sender<T>, t: T) -> (r: Result<(), SendError<T>>)
    ensures
        r matches Err(e) ==> e.0 == t,
{
    match tx.send(t) {
        Ok(()) => Ok(()),
        Err(std::sync::mpsc::SendError(v)) => Err(SendError(v)),
    }
}

/// Relies on `std::sync::mpsc::SyncSender::send`: enqueues `t`, blocking
/// while the queue is at capacity; it fails exactly when the receiving half
/// was dropped, handing `t` back.
#[verifier::external_body]
pub(crate) fn mpsc_sync_send<T>(tx: &std::sync::mpsc::SyncSender<T>, t: T) -> (r: Result<(), SendError<T>>)
    ensures
        r matches Err(e) ==> e.0 == t,
{
    match tx.send(t) {
        Ok(()) => Ok(()),
        Err(std::sync::mpsc::SendError(v)) => Err(SendError(v)),
    }
}

/// Relies on `std::sync::mpsc::SyncSender::try_send`: enqueues `t` without
/// blocking; it hands `t` back inside `Full` when the queue is at capacity
/// at the instant of the call, and inside `Disconnected` when the receiving
/// half was dropped.
#[verifier::external_body]
pub(crate) fn mpsc_try_send<T>(tx: &std::sync::mpsc::SyncSender<T>, t: T) -> (r: Result<(), TrySendError<T>>)
    ensures
        r matches Err(e) ==> e.value() == t,
{
    match tx.try_send(t) {
        Ok(()) => Ok(()),
        Err(std::sync::mpsc::TrySendError::Full(v)) => Err(TrySendError::Full(v)),
        Err(std::sync::mpsc::TrySendError::Disconnected(v)) => Err(TrySendError::Disconnected(v)),
    }
}

/// Relies on `std::sync::mpsc::Receiver::try_recv`: without blocking, takes
/// the next queued value out, or reports `Empty` while nothing is queued and
/// a producing half may still send, or `Disconnected` once every producing
/// half was dropped and the buffer is drained.
#[verifier::external_body]
pub(crate) fn mpsc_try_recv<T>(rx: &std::sync::mpsc::Receiver<T>) -> (r: Result<T, TryRecvError>) {
    match rx.try_recv() {
        Ok(v) => Ok(v),
        Err(std::sync::mpsc::TryRecvError::Empty) => Err(TryRecvError::Empty),
        Err(std::sync::mpsc::TryRecvError::Disconnected) => Err(TryRecvError::Disconnected),
    }
}

/// Relies on `std::sync::mpsc::Sender::clone`: the clone feeds the same queue.
#[verifier::external_body]
pub(crate) fn mpsc_sender_clone<T>(tx: &std::sync::mpsc::Sender<T>) -> std::sync::mpsc::Sender<T> {
    tx.clone()
}

/// Relies on `std::sync::mpsc::SyncSender::clone`: the clone feeds the same queue.
#[verifier::external_body]
pub(crate) fn mpsc_sync_sender_clone<T>(tx: &std::sync::mpsc::SyncSender<T>) -> std::sync::mpsc::SyncSender<T> {
    tx.clone()
}

} // verus!
