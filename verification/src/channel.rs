//! Trusted declarations around the standard library's mpsc channel, which
//! carries user events from any thread into the event loop, and around the
//! system clock, which bounds deadline waits.
//!
//! Nothing can be promised about when a message arrives or what time it is:
//! the contracts here state only what holds of every outcome, most
//! importantly that a failed send returns the message unchanged.

use vstd::prelude::*;

verus! {

#[verifier::external_type_specification]
#[verifier::external_body]
#[verifier::reject_recursive_types(T)]
pub struct ExSender<T>(std::sync::mpsc::Sender<T>);

#[verifier::external_type_specification]
#[verifier::external_body]
#[verifier::reject_recursive_types(T)]
pub struct ExReceiver<T>(std::sync::mpsc::Receiver<T>);

/// Why a receive returned no message: the queue was empty at that moment
/// (or the wait timed out), or every sender is gone.
#[derive(Clone, Copy, Debug, PartialEq, Eq, Structural)]
pub enum RecvStatus {
    Empty,
    Disconnected,
}

/// Relies on std::sync::mpsc::channel: a connected sender/receiver pair for
/// an asynchronous queue that preserves each sender's own send order.
#[verifier::external_body]
pub(crate) fn user_channel<T>() -> (std::sync::mpsc::Sender<T>, std::sync::mpsc::Receiver<T>) {
    std::sync::mpsc::channel()
}

/// Relies on std::sync::mpsc::Sender::clone: another sender for the same
/// channel.
#[verifier::external_body]
pub(crate) fn clone_sender<T>(tx: &std::sync::mpsc::Sender<T>) -> std::sync::mpsc::Sender<T> {
    tx.clone()
}

/// Relies on std::sync::mpsc::Sender::send: it fails exactly when the
/// receiver has been dropped, never blocks, and the error carries the
/// message back unchanged.
#[verifier::external_body]
pub(crate) fn channel_send<T>(tx: &std::sync::mpsc::Sender<T>, message: T) -> (r: Result<(), T>)
    ensures
        r matches Err(m) ==> m == message,
{
    match tx.send(message) {
        Ok(()) => Ok(()),
        Err(std::sync::mpsc::SendError(m)) => Err(m),
    }
}

/// Relies on std::sync::mpsc::Receiver::try_recv: a queued message, or the
/// reason none was taken, without blocking.
#[verifier::external_body]
pub(crate) fn channel_try_recv<T>(rx: &std::sync::mpsc::Receiver<T>) -> Result<T, RecvStatus> {
    match rx.try_recv() {
        Ok(m) => Ok(m),
        Err(std::sync::mpsc::TryRecvError::Empty) => Err(RecvStatus::Empty),
        Err(std::sync::mpsc::TryRecvError::Disconnected) => Err(RecvStatus::Disconnected),
    }
}

/// Relies on std::sync::mpsc::Receiver::recv: it blocks until a message
/// arrives, and fails only when every sender is gone.
#[verifier::external_body]
pub(crate) fn channel_recv<T>(rx: &std::sync::mpsc::Receiver<T>) -> (r: Result<T, RecvStatus>)
    ensures
        r matches Err(status) ==> status == RecvStatus::Disconnected,
{
    match rx.recv() {
        Ok(m) => Ok(m),
        Err(std::sync::mpsc::RecvError) => Err(RecvStatus::Disconnected),
    }
}

/// Relies on std::sync::mpsc::Receiver::recv_timeout: it blocks for at most
/// the given number of milliseconds, returning a message if one arrives in
/// time.
#[verifier::external_body]
pub(crate) fn channel_recv_timeout<T>(
    rx: &std::sync::mpsc::Receiver<T>,
    timeout_millis: u64,
) -> Result<T, RecvStatus> {
    match rx.recv_timeout(std::time::Duration::from_millis(timeout_millis)) {
        Ok(m) => Ok(m),
        Err(std::sync::mpsc::RecvTimeoutError::Timeout) => Err(RecvStatus::Empty),
        Err(std::sync::mpsc::RecvTimeoutError::Disconnected) => Err(RecvStatus::Disconnected),
    }
}

/// Relies on std::time::SystemTime::elapsed, applied to the Unix epoch: the
/// current wall-clock time as whole milliseconds since that epoch, or zero
/// if the clock reads earlier than it.
#[verifier::external_body]
pub(crate) fn clock_now_millis() -> u64 {
    match std::time::UNIX_EPOCH.elapsed() {
        Ok(d) => d.as_millis() as u64,
        Err(_) => 0,
    }
}

} // verus!
