//! A busy-wait barrier for exactly two threads.

use crate::counters::Arrival;
use core::sync::atomic::AtomicUsize;
use core::sync::atomic::Ordering;
use vstd::prelude::*;

verus! {

/// `core::hint::spin_loop` tells the processor that the caller is spinning.
/// It returns nothing and changes nothing that the program can see.
pub assume_specification[ core::hint::spin_loop ]();

/// The most laps a barrier from [`NoDelayBarrier::new`] spins in one wait
/// before it gives up.
pub const SPIN_LAPS: u64 = u64::MAX;

/// A minimal busy-wait barrier for exactly **two threads**.
///
/// It uses atomic counters and spinning only, never a lock or a blocking call
/// of the operating system, so that a rendezvous adds as little delay as
/// possible.
///
/// At most two threads may arrive in the same round. With more, a thread can
/// spin until its budget is used up.
#[derive(Debug)]
pub struct NoDelayBarrier {
    // arrival count for the current epoch
    arrived: AtomicUsize,
    // increments every time a round ends
    epoch: AtomicUsize,
    // how long a thread spins for its partner
    laps: u64,
}

impl NoDelayBarrier {
    /// The most laps a thread spins at this barrier in one wait.
    pub closed spec fn laps(&self) -> u64 {
        self.laps
    }

    /// Create a new barrier for 2 threads. A thread waits [`SPIN_LAPS`] laps
    /// for its partner, which is longer than any machine runs.
    #[must_use]
    pub fn new() -> (barrier: NoDelayBarrier)
        ensures
            barrier.laps() == SPIN_LAPS,
    {
        NoDelayBarrier::with_laps(SPIN_LAPS)
    }

    /// Create a new barrier for 2 threads, at which a thread gives up on its
    /// partner after `laps` laps.
    #[must_use]
    pub fn with_laps(laps: u64) -> (barrier: NoDelayBarrier)
        ensures
            barrier.laps() == laps,
    {
        NoDelayBarrier { epoch: AtomicUsize::new(0), arrived: AtomicUsize::new(0), laps }
    }

    /// Arrives at the barrier without waiting.
    ///
    /// The first thread of a round is told the epoch it has to see the end of.
    /// The second resets the arrival count and moves the epoch on, which
    /// releases the first.
    pub fn arrive(&self) -> (arrival: Arrival) {
        // Remember which epoch we are trying to synchronize in
        let my_epoch: usize = self.epoch.load(Ordering::Acquire);
        // Count this arrival; learn how many came before
        let earlier: usize = self.arrived.fetch_add(1, Ordering::AcqRel);
        let arrival = Arrival::of(earlier, my_epoch);
        match arrival {
            Arrival::Second => {
                self.arrived.store(0, Ordering::Release);
                self.epoch.fetch_add(1, Ordering::Release);
            },
            Arrival::First { .. } => {},
        }
        arrival
    }

    /// Whether the round of `arrival` has ended.
    pub fn is_released(&self, arrival: &Arrival) -> (released: bool)
        ensures
            arrival is Second ==> released,
    {
        match arrival {
            Arrival::Second => true,
            Arrival::First { .. } => {
                let now: usize = self.epoch.load(Ordering::Acquire);
                arrival.is_released_at(now)
            },
        }
    }

    /// Spins until the round of `arrival` has ended, for as many laps as
    /// this barrier allows. Returns whether it has ended.
    pub fn wait_for(&self, arrival: &Arrival) -> (released: bool)
        ensures
            arrival is Second ==> released,
    {
        let mut left: u64 = self.laps;
        loop
            decreases left,
        {
            if self.is_released(arrival) {
                return true;
            }
            if left == 0 {
                return false;
            }
            core::hint::spin_loop();
            left = left - 1;
        }
    }

    /// Wait until both threads have reached this point.
    /// - The *first* thread spins until the second arrives.
    /// - The *second* thread releases the first and goes on at once.
    ///
    /// Returns whether the threads have met. They have not when the partner
    /// stayed away for all the laps that this barrier allows.
    pub fn wait(&self) -> (met: bool) {
        let arrival = self.arrive();
        self.wait_for(&arrival)
    }

    /// Force-release the barrier for this round only.
    /// Any thread currently stuck in `wait()` will resume, and
    /// the barrier state is reset for the next round.
    pub fn unblock(&self) {
        // Reset arrivals so the next round starts fresh
        self.arrived.store(0, Ordering::Release);
        // Bump epoch to release all spinners
        self.epoch.fetch_add(1, Ordering::Release);
    }
}

impl Default for NoDelayBarrier {
    fn default() -> (barrier: NoDelayBarrier)
        ensures
            barrier.laps() == SPIN_LAPS,
    {
        NoDelayBarrier::new()
    }
}

} // verus!
