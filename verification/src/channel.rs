//! Implements [`Sleeper`] and [`Waker`] using a single-slot queue of wake
//! instants.

use crate::counters::Arrival;
use crate::fault::Fault;
use crate::synchronization::NoDelayBarrier;
use crate::synchronization::SPIN_LAPS;
use crate::time::now;
use crate::time::TimeSpan;
use crate::transport::bounded_channel;
use crate::transport::receive_within;
use crate::transport::send;
use crate::transport::slots_of;
use crate::transport::Reception;
use crate::Sleeper;
use crate::Waker;
use crate::WakeupReason;
use std::sync::mpsc::Receiver;
use std::sync::mpsc::SyncSender;
use std::sync::Arc;
use std::time::Instant;
use vstd::prelude::*;

verus! {

#[derive(Debug)]
pub struct ChannelSleeper {
    receiver: Receiver<Instant>,
    // Barrier to synchronize sleep_interruptible() and wake()
    synchronization_point: Arc<NoDelayBarrier>,
}

#[derive(Debug)]
pub struct ChannelWaker {
    sender: SyncSender<Instant>,
    // Helper to synchronize sleep_interruptible() and wake()
    synchronization_point: Arc<NoDelayBarrier>,
}

/// Creates a sleeper and the waker that belongs to it.
///
/// The waker feeds a queue with a single slot, so that one wake at most is
/// on its way. The two share one barrier, at which every wake is
/// acknowledged. It is a barrier of their own, with the patience of
/// [`NoDelayBarrier::new`].
#[must_use]
pub fn new_pair() -> (pair: (ChannelSleeper, ChannelWaker))
    ensures
        pair.1.slots() == 1,
        pair.0.barrier() == pair.1.barrier(),
        pair.0.barrier().laps() == SPIN_LAPS,
{
    let (sender, receiver) = bounded_channel(1);
    let synchronization_point = Arc::new(NoDelayBarrier::new());
    let sleeper = ChannelSleeper {
        receiver,
        synchronization_point: synchronization_point.clone(),
    };
    let waker = ChannelWaker { sender, synchronization_point };

    (sleeper, waker)
}

/// What the end of a bounded receive means for the sleeper: a delivered
/// instant is a wake call, an expired deadline a timeout, and a queue without
/// a sender a fault.
pub open spec fn reason_of(reception: Reception<Instant>) -> Result<WakeupReason, Fault> {
    match reception {
        Reception::Delivered(instant) => Ok(
            WakeupReason::Interrupted { wake_call_instant: instant },
        ),
        Reception::TimedOut => Ok(WakeupReason::Timeout),
        Reception::Disconnected => Err(Fault::Disconnected),
    }
}

/// Turns the end of a bounded receive into the reason for waking up.
pub fn interpret(reception: Reception<Instant>) -> (outcome: Result<WakeupReason, Fault>)
    ensures
        outcome == reason_of(reception),
{
    match reception {
        Reception::Delivered(instant) => Ok(
            WakeupReason::Interrupted { wake_call_instant: instant },
        ),
        Reception::TimedOut => Ok(WakeupReason::Timeout),
        Reception::Disconnected => Err(Fault::Disconnected),
    }
}

impl ChannelSleeper {
    /// The barrier at which this sleeper acknowledges a wake.
    pub closed spec fn barrier(&self) -> NoDelayBarrier {
        *self.synchronization_point
    }
}

impl Sleeper for ChannelSleeper {
    /// Waits for a wake instant for `sleep_duration` at most. A wake is
    /// acknowledged at the barrier before the function returns.
    ///
    /// A wake instant that is already in the queue counts, however long ago it
    /// was sent, and a wake that comes after the deadline stays in the queue.
    fn sleep_interruptible(&self, sleep_duration: TimeSpan) -> (outcome: Result<
        WakeupReason,
        Fault,
    >)
        ensures
            outcome matches Err(fault) ==> fault == Fault::Disconnected || fault == Fault::Stalled,
    {
        let reception = receive_within(
            &self.receiver,
            sleep_duration.as_secs(),
            sleep_duration.subsec_nanos(),
        );
        let reason = interpret(reception)?;
        match reason {
            WakeupReason::Interrupted { .. } => {
                // Unblock Waker::wake()
                if !self.synchronization_point.wait() {
                    return Err(Fault::Stalled);
                }
            },
            WakeupReason::Timeout => {},
        }
        Ok(reason)
    }
}

impl ChannelWaker {
    /// How many wakes the queue of this waker holds.
    pub closed spec fn slots(&self) -> usize {
        slots_of(self.sender)
    }

    /// The barrier at which this waker waits for the acknowledgement.
    pub closed spec fn barrier(&self) -> NoDelayBarrier {
        *self.synchronization_point
    }

    /// The first half of [`Waker::wake`]: sends the current instant and
    /// arrives at the barrier, without waiting there.
    pub fn begin_wake(&self) -> (outcome: Result<Arrival, Fault>)
        ensures
            outcome matches Err(fault) ==> fault == Fault::Disconnected,
    {
        send(&self.sender, now())?;
        Ok(self.synchronization_point.arrive())
    }

    /// The second half of [`Waker::wake`]: waits until the sleeper has
    /// acknowledged the wake that `arrival` belongs to.
    pub fn finish_wake(&self, arrival: &Arrival) -> (outcome: Result<(), Fault>)
        ensures
            arrival is Second ==> outcome is Ok,
            outcome matches Err(fault) ==> fault == Fault::Stalled,
    {
        // Wait for sleep() to be interrupted.
        if self.synchronization_point.wait_for(arrival) {
            Ok(())
        } else {
            Err(Fault::Stalled)
        }
    }
}

impl Waker for ChannelWaker {
    fn wake(&self) -> (outcome: Result<(), Fault>)
        ensures
            outcome matches Err(fault) ==> fault == Fault::Disconnected || fault == Fault::Stalled,
    {
        let arrival = self.begin_wake()?;
        self.finish_wake(&arrival)
    }
}

} // verus!
