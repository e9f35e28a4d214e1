//! Interruptible sleep, built twice, and the pieces needed to measure how
//! promptly each build wakes up.
//!
//! A thread sleeps for a bounded time and either runs into its deadline or is
//! woken early by a partner thread. Every wake is acknowledged through a
//! two-party spin barrier, so at most one wake is in flight per pair.

use crate::fault::Fault;
use crate::time::TimeSpan;
use std::time::Instant;
use vstd::prelude::*;

pub mod channel;
pub mod condvar;
pub mod counters;
pub mod driver;
pub mod fault;
pub mod sleeper_thread;
pub mod synchronization;
pub mod time;
pub mod transport;

verus! {

/// Why a sleep ended.
#[derive(Debug, PartialEq, Eq, Clone, Copy)]
pub enum WakeupReason {
    /// The requested time ran out.
    Timeout,
    /// The paired waker cut the sleep short, at the given instant.
    Interrupted { wake_call_instant: Instant },
}

/// What one sleep cycle measured.
#[derive(Debug, Clone, Copy, PartialEq, Eq)]
pub struct WakeupContext {
    pub reason: WakeupReason,
    /// How long the sleep should have lasted: up to the wake call when it was
    /// interrupted, else the requested time.
    pub expected_duration: TimeSpan,
    /// How long the sleep did last, scheduling overhead included.
    pub actual_duration: TimeSpan,
    /// By how much the sleep overran: `actual_duration - expected_duration`.
    pub delay: TimeSpan,
}

/// A sleeper that puts the executing thread context into an interruptible
/// sleep.
pub trait Sleeper {
    /// Puts the thread into sleep that is interruptible.
    fn sleep_interruptible(&self, sleep_duration: TimeSpan) -> Result<WakeupReason, Fault>;
}

/// A waker for a [`Sleeper`].
pub trait Waker {
    /// Wakes the corresponding [`Sleeper`].
    ///
    /// The implementation is supposed to send the current [`Instant`] to the
    /// [`Sleeper`] so that it can properly construct the [`WakeupContext`].
    ///
    /// This function waits for the [`Sleeper`] to acknowledge the wake-up
    /// call, so that a new cycle never starts while a wake is in flight. The
    /// wait goes through a [`NoDelayBarrier`] to add as little delay as
    /// possible.
    ///
    /// [`NoDelayBarrier`]: crate::synchronization::NoDelayBarrier
    fn wake(&self) -> Result<(), Fault>;
}

/// One measured sleep cycle.
#[derive(Debug, Clone, Copy, PartialEq, Eq)]
pub struct Measurement {
    pub wakeup_context: WakeupContext,
}

/// The measured cycles of a run, split by how they ended.
#[derive(Debug)]
pub struct Measurements {
    pub interrupted: Vec<Measurement>,
    pub timeouted: Vec<Measurement>,
    pub rounds: usize,
}

/// How long a sleep should have lasted, in nanoseconds: the requested time
/// when it ran out, the time up to the wake call when it was interrupted.
/// `None` when the wake call lies before the start of the sleep, so that
/// there is no `wake_offset`.
pub open spec fn expected_nanos(
    reason: WakeupReason,
    requested: TimeSpan,
    wake_offset: Option<TimeSpan>,
) -> Option<nat> {
    match reason {
        WakeupReason::Timeout => Some(requested@),
        WakeupReason::Interrupted { .. } => match wake_offset {
            Some(offset) => Some(offset@),
            None => None,
        },
    }
}

impl WakeupContext {
    /// The three durations fit together: the delay is what the sleep lasted
    /// beyond what was expected of it.
    pub open spec fn consistent(self) -> bool {
        self.expected_duration@ + self.delay@ == self.actual_duration@
    }

    /// Whether `outcome` is what [`WakeupContext::measure`] owes for the
    /// given observations: a record whose expected time is
    /// [`expected_nanos`] and whose delay is the rest of the actual time,
    /// or the fault that says why there is no such record.
    pub open spec fn measured(
        outcome: Result<WakeupContext, Fault>,
        reason: WakeupReason,
        requested: TimeSpan,
        actual: TimeSpan,
        wake_offset: Option<TimeSpan>,
    ) -> bool {
        match expected_nanos(reason, requested, wake_offset) {
            None => outcome == Err::<WakeupContext, Fault>(Fault::WakeBeforeSleep),
            Some(expected) => if expected <= actual@ {
                &&& outcome matches Ok(context)
                &&& context.reason == reason
                &&& context.actual_duration == actual
                &&& context.expected_duration@ == expected
                &&& context.delay@ == actual@ - expected
                &&& context.expected_duration.normalized()
                &&& context.delay.normalized()
            } else {
                outcome == Err::<WakeupContext, Fault>(Fault::NegativeDelay)
            },
        }
    }

    /// A sleep that ran out has a record exactly when it lasted at least as
    /// long as was asked, and the record says so: the reason is the timeout,
    /// the expected time is the requested one, and the actual time is no
    /// shorter.
    pub proof fn lemma_timeout_lasts_as_requested(
        outcome: Result<WakeupContext, Fault>,
        requested: TimeSpan,
        actual: TimeSpan,
        wake_offset: Option<TimeSpan>,
    )
        requires
            WakeupContext::measured(outcome, WakeupReason::Timeout, requested, actual, wake_offset),
        ensures
            outcome is Ok <==> requested@ <= actual@,
            outcome matches Ok(context) ==> context.reason is Timeout
                && context.expected_duration@ == requested@ && context.actual_duration@
                >= requested@,
    {
    }

    /// A sleep that was interrupted has a record exactly when the wake call
    /// lies between the start and the end of the sleep, and the record says
    /// so: the reason carries the instant of the call, and the expected time
    /// is the time from the start of the sleep to the call.
    pub proof fn lemma_heeded_wake_lies_within_sleep(
        outcome: Result<WakeupContext, Fault>,
        wake_call_instant: Instant,
        requested: TimeSpan,
        actual: TimeSpan,
        wake_offset: Option<TimeSpan>,
    )
        requires
            WakeupContext::measured(
                outcome,
                WakeupReason::Interrupted { wake_call_instant },
                requested,
                actual,
                wake_offset,
            ),
        ensures
            outcome is Ok <==> (wake_offset matches Some(offset) && offset@ <= actual@),
            outcome matches Ok(context) ==> context.reason == (WakeupReason::Interrupted {
                wake_call_instant,
            }) && (wake_offset matches Some(offset) && context.expected_duration@ == offset@
                && offset@ <= context.actual_duration@),
    {
    }

    /// Derives the record of a cycle from what was observed.
    ///
    /// `requested` is the time the sleeper was asked to sleep, `actual` the
    /// time it took, and `wake_offset` the time from the start of the sleep to
    /// the wake call, where there was one that did not precede the start.
    ///
    /// A wake call from before the sleep, and a sleep shorter than expected,
    /// are faults: a wake cannot be seen before it has happened.
    pub fn measure(
        reason: WakeupReason,
        requested: TimeSpan,
        actual: TimeSpan,
        wake_offset: Option<TimeSpan>,
    ) -> (outcome: Result<WakeupContext, Fault>)
        ensures
            WakeupContext::measured(outcome, reason, requested, actual, wake_offset),
            outcome matches Ok(context) ==> context.consistent(),
            // A sleep that ran out lasted at least as long as requested.
            outcome matches Ok(context) ==> (reason is Timeout ==> context.actual_duration@
                >= requested@),
            // A wake call that was heeded lies between the start and the end
            // of the sleep.
            outcome matches Ok(context) ==> (reason is Interrupted ==> (wake_offset matches Some(
                offset,
            ) && offset@ <= context.actual_duration@)),
    {
        let expected = match reason {
            WakeupReason::Timeout => requested,
            WakeupReason::Interrupted { .. } => match wake_offset {
                Some(offset) => offset,
                None => {
                    return Err(Fault::WakeBeforeSleep);
                },
            },
        };
        proof {
            use_type_invariant(&expected);
        }
        match actual.checked_sub(&expected) {
            Some(delay) => Ok(
                WakeupContext {
                    reason,
                    expected_duration: expected,
                    actual_duration: actual,
                    delay,
                },
            ),
            None => Err(Fault::NegativeDelay),
        }
    }
}

} // verus!
