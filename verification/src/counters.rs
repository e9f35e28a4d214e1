//! The two counters of a two-party barrier as plain numbers, and what the
//! barrier's protocol does to them.
//!
//! The barrier itself keeps its counters in atomics, whose contents the
//! verifier cannot see. Every decision the barrier takes is therefore a
//! function of this module, applied to what an atomic operation handed back,
//! and the laws of the protocol are proved here, over [`Counters`].

use vstd::prelude::*;

verus! {

/// The successor of `n` on a counter that wraps around, as an atomic
/// fetch-and-add does.
pub open spec fn wrapping_next(n: usize) -> usize {
    if n == usize::MAX {
        0
    } else {
        (n + 1) as usize
    }
}

/// How a party arrived at the barrier.
#[derive(Clone, Copy, Debug, PartialEq, Eq, Structural)]
pub enum Arrival {
    /// It arrived before its partner, in the round of the given epoch, and has
    /// to wait until the epoch moves on.
    First { epoch: usize },
    /// Its partner was already waiting. The arrival ended the round.
    Second,
}

/// A snapshot of the barrier: how many parties have arrived in the current
/// round, and the number of the round.
#[derive(Clone, Copy, Debug, PartialEq, Eq, Structural)]
pub struct Counters {
    pub arrived: usize,
    pub epoch: usize,
}

impl Arrival {
    /// Whether a barrier whose epoch reads `epoch` has released this arrival.
    pub open spec fn released_at(self, epoch: usize) -> bool {
        match self {
            Arrival::First { epoch: seen } => seen != epoch,
            Arrival::Second => true,
        }
    }

    /// The arrival of a party that saw `epoch` and found that `earlier`
    /// parties had arrived before it.
    pub fn of(earlier: usize, epoch: usize) -> (arrival: Arrival)
        ensures
            arrival == (Counters { arrived: earlier, epoch }).arrival(),
    {
        if earlier == 1 {
            Arrival::Second
        } else {
            Arrival::First { epoch }
        }
    }

    /// Whether a barrier whose epoch reads `epoch` has released this arrival.
    pub fn is_released_at(&self, epoch: usize) -> (released: bool)
        ensures
            released == self.released_at(epoch),
    {
        match self {
            Arrival::First { epoch: seen } => *seen != epoch,
            Arrival::Second => true,
        }
    }
}

impl Counters {
    /// No party is waiting.
    pub open spec fn idle(self) -> bool {
        self.arrived == 0
    }

    /// How the next party arrives.
    pub open spec fn arrival(self) -> Arrival {
        if self.arrived == 1 {
            Arrival::Second
        } else {
            Arrival::First { epoch: self.epoch }
        }
    }

    /// The counters once the next party has arrived: the second of a round
    /// clears the count and moves the epoch on, any other is counted.
    pub open spec fn after_arrival(self) -> Counters {
        if self.arrived == 1 {
            Counters { arrived: 0, epoch: wrapping_next(self.epoch) }
        } else {
            Counters { arrived: wrapping_next(self.arrived), epoch: self.epoch }
        }
    }

    /// The counters after a forced release.
    pub open spec fn after_unblock(self) -> Counters {
        Counters { arrived: 0, epoch: wrapping_next(self.epoch) }
    }

    /// The counters after `rounds` rounds of two arrivals each.
    pub open spec fn after_rounds(self, rounds: nat) -> Counters
        decreases rounds,
    {
        if rounds == 0 {
            self
        } else {
            self.after_arrival().after_arrival().after_rounds((rounds - 1) as nat)
        }
    }

    /// The counters of a barrier that nobody has used yet.
    pub fn new() -> (counters: Counters)
        ensures
            counters == (Counters { arrived: 0, epoch: 0 }),
            counters.idle(),
    {
        Counters { arrived: 0, epoch: 0 }
    }

    /// Lets the next party arrive.
    pub fn arrive(&mut self) -> (arrival: Arrival)
        ensures
            arrival == old(self).arrival(),
            *final(self) == old(self).after_arrival(),
    {
        let arrival = Arrival::of(self.arrived, self.epoch);
        match arrival {
            Arrival::Second => {
                self.arrived = 0;
                self.epoch = self.epoch.wrapping_add(1);
            },
            Arrival::First { .. } => {
                self.arrived = self.arrived.wrapping_add(1);
            },
        }
        arrival
    }

    /// Forces the current round to end.
    pub fn unblock(&mut self)
        ensures
            *final(self) == old(self).after_unblock(),
    {
        self.arrived = 0;
        self.epoch = self.epoch.wrapping_add(1);
    }

    /// A round of two arrivals: the first party is held until the second has
    /// arrived and is released by that arrival, and the barrier is idle again,
    /// one epoch later.
    pub proof fn lemma_round_completes(start: Counters)
        requires
            start.idle(),
        ensures
            start.arrival() == (Arrival::First { epoch: start.epoch }),
            !start.arrival().released_at(start.after_arrival().epoch),
            start.after_arrival().arrival() == Arrival::Second,
            start.arrival().released_at(start.after_arrival().after_arrival().epoch),
            start.after_arrival().after_arrival().idle(),
            start.after_arrival().after_arrival().epoch == wrapping_next(start.epoch),
    {
    }

    /// Any number of rounds, started on an idle barrier, leaves the barrier
    /// idle: no round is left open, whichever round it is.
    pub proof fn lemma_rounds_complete(start: Counters, rounds: nat)
        requires
            start.idle(),
        ensures
            start.after_rounds(rounds).idle(),
        decreases rounds,
    {
        if rounds > 0 {
            Self::lemma_round_completes(start);
            Self::lemma_rounds_complete(
                start.after_arrival().after_arrival(),
                (rounds - 1) as nat,
            );
        }
    }

    /// A forced release lets go of a party that arrived first and is still
    /// waiting, and leaves the barrier idle, so that the next round starts
    /// like any other.
    pub proof fn lemma_unblock_releases(start: Counters)
        requires
            start.idle(),
        ensures
            !start.arrival().released_at(start.after_arrival().epoch),
            start.arrival().released_at(start.after_arrival().after_unblock().epoch),
            start.after_arrival().after_unblock().idle(),
    {
    }
}

} // verus!
