//! Bounded queues between two threads.

use crate::fault::Fault;
use crate::time::NANOS_PER_SEC;
use std::sync::mpsc::Receiver;
use std::sync::mpsc::RecvTimeoutError;
use std::sync::mpsc::SyncSender;
use std::time::Duration;
use std::time::Instant;
use vstd::prelude::*;

verus! {

#[verifier::external_type_specification]
#[verifier::external_body]
#[verifier::reject_recursive_types(T)]
pub struct ExSyncSender<T>(SyncSender<T>);

#[verifier::external_type_specification]
#[verifier::external_body]
#[verifier::reject_recursive_types(T)]
pub struct ExReceiver<T>(Receiver<T>);

/// How a receive with a deadline ended.
#[derive(Debug, PartialEq, Eq)]
pub enum Reception<T> {
    /// An item arrived in time.
    Delivered(T),
    /// The deadline passed first.
    TimedOut,
    /// The sending end is gone and the queue is empty.
    Disconnected,
}

/// The number of slots of the queue that `sender` feeds: the bound that
/// `std::sync::mpsc::sync_channel` was given when it opened the queue.
pub uninterp spec fn slots_of(sender: SyncSender<Instant>) -> usize;

/// Opens a queue of instants that holds `slots` items, through
/// `std::sync::mpsc::sync_channel`.
///
/// Trusted. The queue has the number of slots that was asked for, which is
/// what std documents of the bound. Nothing else is claimed of the two ends.
#[verifier::external_body]
pub(crate) fn bounded_channel(slots: usize) -> (ends: (SyncSender<Instant>, Receiver<Instant>))
    ensures
        slots_of(ends.0) == slots,
{
    std::sync::mpsc::sync_channel(slots)
}

/// Puts `item` into the queue through `SyncSender::send`, waiting for a free
/// slot if there is none.
///
/// Trusted. Whether the receiving end still exists is up to the other thread,
/// so either result can come back: `Fault::Disconnected` stands for the
/// error of `send`.
#[verifier::external_body]
pub(crate) fn send<T>(sender: &SyncSender<T>, item: T) -> (sent: Result<(), Fault>)
    ensures
        sent matches Err(fault) ==> fault == Fault::Disconnected,
{
    match sender.send(item) {
        Ok(()) => Ok(()),
        Err(_) => Err(Fault::Disconnected),
    }
}

/// Takes the next item from the queue through `Receiver::recv`, waiting for
/// one if there is none.
///
/// Trusted. What arrives is up to the other thread. `Fault::Disconnected`
/// stands for the error of `recv`.
#[verifier::external_body]
pub(crate) fn receive<T>(receiver: &Receiver<T>) -> (received: Result<T, Fault>)
    ensures
        received matches Err(fault) ==> fault == Fault::Disconnected,
{
    match receiver.recv() {
        Ok(item) => Ok(item),
        Err(_) => Err(Fault::Disconnected),
    }
}

/// Takes the next item from the queue through `Receiver::recv_timeout`,
/// waiting for `secs` seconds and `nanos` nanoseconds at most.
///
/// Trusted. Which of the three outcomes comes back is up to the other thread
/// and to the clock. `nanos` is kept below one second, where `Duration::new`
/// has nothing to carry over and cannot overflow.
#[verifier::external_body]
pub(crate) fn receive_within<T>(receiver: &Receiver<T>, secs: u64, nanos: u32) -> (reception:
    Reception<T>)
    requires
        nanos < NANOS_PER_SEC,
{
    match receiver.recv_timeout(Duration::new(secs, nanos)) {
        Ok(item) => Reception::Delivered(item),
        Err(RecvTimeoutError::Timeout) => Reception::TimedOut,
        Err(RecvTimeoutError::Disconnected) => Reception::Disconnected,
    }
}

} // verus!
