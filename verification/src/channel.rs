//! The channel transport: bounded FIFO queues between the two loops.
//!
//! The queues themselves are `crossbeam_channel`'s. Their contents are shared
//! with whoever holds another handle, so nothing in this module claims to
//! know what a channel holds at a given moment; the bridges are verified for
//! every sequence of items a drain may hand them.

use crossbeam_channel::{Receiver, Sender};
use vstd::prelude::*;

verus! {

/// `crossbeam_channel::Sender`, the sending end of a channel. Nothing is
/// known of a value of it.
#[verifier::external_type_specification]
#[verifier::external_body]
#[verifier::reject_recursive_types(T)]
pub struct ExSender<T>(Sender<T>);

/// `crossbeam_channel::Receiver`, the receiving end of a channel. Nothing
/// is known of a value of it.
#[verifier::external_type_specification]
#[verifier::external_body]
#[verifier::reject_recursive_types(T)]
pub struct ExReceiver<T>(Receiver<T>);

/// Capacity of every channel the bridges open.
pub const CHANNEL_CAPACITY: usize = 50;

/// The peer end of a channel was dropped; `message` is the item that could
/// not be delivered.
#[derive(Debug, PartialEq, Eq)]
pub struct Disconnected<T> {
    pub message: T,
}

/// Opens a bounded channel with `crossbeam_channel::bounded`.
///
/// Trusted: the call returns for every capacity whose slot index arithmetic
/// does not overflow, which is what the precondition demands. Nothing is
/// claimed about the two handles.
#[verifier::external_body]
pub(crate) fn open<T>(capacity: usize) -> (pair: (Sender<T>, Receiver<T>))
    requires
        capacity <= usize::MAX / 4,
{
    crossbeam_channel::bounded(capacity)
}

/// Enqueues `item` with `crossbeam_channel::Sender::send`, blocking while
/// the channel is full.
///
/// Trusted: when the call fails, the error carries the very item that was
/// handed in. Whether it fails depends on the receivers, so success is not
/// promised.
#[verifier::external_body]
pub(crate) fn send<T>(tx: &Sender<T>, item: T) -> (sent: Result<(), Disconnected<T>>)
    ensures
        sent matches Err(e) ==> e.message == item,
{
    match tx.send(item) {
        Ok(()) => Ok(()),
        Err(crossbeam_channel::SendError(message)) => Err(Disconnected { message }),
    }
}

/// Takes everything that is buffered, in queue order, without blocking:
/// `crossbeam_channel::Receiver::try_iter`, collected.
///
/// Trusted, with nothing claimed: what is buffered depends on the senders.
#[verifier::external_body]
pub(crate) fn drain<T>(rx: &Receiver<T>) -> (items: Vec<T>) {
    rx.try_iter().collect()
}

/// Another handle on the same channel: `crossbeam_channel::Sender::clone`.
///
/// Trusted, with nothing claimed.
#[verifier::external_body]
pub(crate) fn clone_sender<T>(tx: &Sender<T>) -> (handle: Sender<T>) {
    tx.clone()
}

/// Another handle on the same channel: `crossbeam_channel::Receiver::clone`.
///
/// Trusted, with nothing claimed.
#[verifier::external_body]
pub(crate) fn clone_receiver<T>(rx: &Receiver<T>) -> (handle: Receiver<T>) {
    rx.clone()
}

} // verus!
