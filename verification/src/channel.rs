//! Bounded channels between an actor and the code that talks to it.
//!
//! The channels are `std::sync::mpsc` sync channels. What a send or a
//! receive returns depends on other threads, so the contracts below only
//! say what holds of every outcome.

use vstd::prelude::*;

verus! {

#[verifier::external_type_specification]
#[verifier::external_body]
#[verifier::reject_recursive_types(T)]
pub struct ExSyncSender<T>(std::sync::mpsc::SyncSender<T>);

#[verifier::external_type_specification]
#[verifier::external_body]
#[verifier::reject_recursive_types(T)]
pub struct ExReceiver<T>(std::sync::mpsc::Receiver<T>);

/// The sending half of a bounded channel.
pub type ActorSender<T> = std::sync::mpsc::SyncSender<T>;

/// The receiving half of a bounded channel.
pub type ActorReceiver<T> = std::sync::mpsc::Receiver<T>;

/// What a non-blocking send attempt came to.
pub enum SendAttempt<T> {
    /// The value is in the channel.
    Sent,
    /// The buffer was full; the value comes back.
    Full(T),
    /// The receiving half is gone; the value comes back.
    Disconnected(T),
}

/// What a non-blocking receive attempt came to.
pub enum RecvAttempt<T> {
    /// A value was taken from the channel.
    Received(T),
    /// Nothing was waiting, and a sender is still alive.
    Empty,
    /// Nothing was waiting, and every sender is gone.
    Disconnected,
}

/// Calls `std::sync::mpsc::sync_channel`, which makes a channel whose buffer
/// holds `bound` values. Nothing is stated of the two halves.
#[verifier::external_body]
fn sync_channel<T>(bound: usize) -> (ActorSender<T>, ActorReceiver<T>) {
    std::sync::mpsc::sync_channel(bound)
}

/// Makes a bounded channel whose buffer holds `bound` values.
pub fn create_channel<T>(bound: usize) -> (ActorSender<T>, ActorReceiver<T>) {
    sync_channel(bound)
}

/// Calls `SyncSender::try_send`. Its documentation says that a value that
/// could not be sent, because the buffer is full or the receiver is gone,
/// is handed back; the contract states that the value handed back is the
/// one given. Which outcome comes depends on other threads.
#[verifier::external_body]
pub(crate) fn try_send_value<T>(tx: &ActorSender<T>, value: T) -> (r: SendAttempt<T>)
    ensures
        r matches SendAttempt::Full(v) ==> v == value,
        r matches SendAttempt::Disconnected(v) ==> v == value,
{
    match tx.try_send(value) {
        Ok(()) => SendAttempt::Sent,
        Err(std::sync::mpsc::TrySendError::Full(v)) => SendAttempt::Full(v),
        Err(std::sync::mpsc::TrySendError::Disconnected(v)) => SendAttempt::Disconnected(v),
    }
}

/// Calls `Receiver::try_recv`, which takes a waiting value if there is one
/// and never blocks. What it returns depends on other threads: nothing is
/// stated of it.
#[verifier::external_body]
pub(crate) fn try_recv_value<T>(rx: &ActorReceiver<T>) -> RecvAttempt<T> {
    match rx.try_recv() {
        Ok(v) => RecvAttempt::Received(v),
        Err(std::sync::mpsc::TryRecvError::Empty) => RecvAttempt::Empty,
        Err(std::sync::mpsc::TryRecvError::Disconnected) => RecvAttempt::Disconnected,
    }
}

/// Calls `SyncSender::send`, which waits for room in the buffer. Its
/// documentation says that when the receiving half is gone the value is
/// handed back in the error; the contract states that the value handed back
/// is the one given. Which outcome comes depends on other threads.
#[verifier::external_body]
pub(crate) fn send_value<T>(tx: &ActorSender<T>, value: T) -> (r: Result<(), T>)
    ensures
        r matches Err(v) ==> v == value,
{
    match tx.send(value) {
        Ok(()) => Ok(()),
        Err(e) => Err(e.0),
    }
}

/// Calls `Receiver::recv`, which waits for a value and fails only once every
/// sender is gone. What it returns depends on other threads: nothing is
/// stated of it.
#[verifier::external_body]
pub(crate) fn recv_value<T>(rx: &ActorReceiver<T>) -> Option<T> {
    match rx.recv() {
        Ok(v) => Some(v),
        Err(_) => None,
    }
}

/// Calls `SyncSender::clone`, which its documentation describes as another
/// sender into the same channel. The sender type is opaque here: the only
/// thing a value of it stands for is the channel it sends into, so the
/// contract states that the clone is that same value.
#[verifier::external_body]
pub(crate) fn clone_sender<T>(tx: &ActorSender<T>) -> (r: ActorSender<T>)
    ensures
        r == *tx,
{
    tx.clone()
}

} // verus!
