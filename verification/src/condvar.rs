//! Implements [`Sleeper`] and [`Waker`] using a mutex-guarded wake record and
//! a condition variable.

use crate::channel::reason_of;
use crate::counters::Arrival;
use crate::counters::Counters;
use crate::fault::Fault;
use crate::synchronization::NoDelayBarrier;
use crate::synchronization::SPIN_LAPS;
use crate::time::now;
use crate::time::TimeSpan;
use crate::time::NANOS_PER_SEC;
use crate::transport::Reception;
use crate::Sleeper;
use crate::Waker;
use crate::WakeupReason;
use std::sync::Arc;
use std::sync::Condvar;
use std::sync::Mutex;
use std::sync::MutexGuard;
use std::time::Duration;
use std::time::Instant;
use vstd::prelude::*;

verus! {

pub const SLEEP_WAS_INTERRUPTED: bool = true;

pub const SLEEP_NORMAL: bool = false;

/// The record that sleeper and waker share under the mutex.
#[derive(Debug, Clone, Copy)]
pub struct SleepWakeContext {
    pub sleep_state: bool,
    pub wake_call_instant: Option<Instant>,
}

impl Default for SleepWakeContext {
    fn default() -> (record: SleepWakeContext)
        ensures
            record == SleepWakeContext::idle(),
    {
        SleepWakeContext { sleep_state: SLEEP_NORMAL, wake_call_instant: None }
    }
}

impl SleepWakeContext {
    /// The record while no wake is in flight.
    pub open spec fn idle() -> SleepWakeContext {
        SleepWakeContext { sleep_state: SLEEP_NORMAL, wake_call_instant: None }
    }

    /// The record once a wake at `instant` has been noted.
    pub open spec fn woken_at(instant: Instant) -> SleepWakeContext {
        SleepWakeContext { sleep_state: SLEEP_WAS_INTERRUPTED, wake_call_instant: Some(instant) }
    }

    /// What the sleeper makes of the record when its wait has ended, and the
    /// record it leaves behind.
    ///
    /// The deadline is looked at first. A wait that ran out is a timeout,
    /// whatever the record holds, and the record stays as it is: a wake that
    /// was noted in the same moment is not heeded. Otherwise a set flag is a
    /// wake call, which is taken out of the record, and a clear flag a fault,
    /// as is a set flag without an instant.
    pub open spec fn observed(self, timed_out: bool) -> (Result<WakeupReason, Fault>, SleepWakeContext) {
        if timed_out {
            (Ok(WakeupReason::Timeout), self)
        } else if self.sleep_state == SLEEP_NORMAL {
            (Err(Fault::SpuriousWake), self)
        } else {
            match self.wake_call_instant {
                Some(instant) => (
                    Ok(WakeupReason::Interrupted { wake_call_instant: instant }),
                    SleepWakeContext::idle(),
                ),
                None => (Err(Fault::MissingWakeInstant), self),
            }
        }
    }

    /// Notes a wake at `instant`.
    pub fn record_wake(&mut self, instant: Instant)
        ensures
            *final(self) == SleepWakeContext::woken_at(instant),
    {
        self.sleep_state = SLEEP_WAS_INTERRUPTED;
        self.wake_call_instant = Some(instant);
    }

    /// Decides why the sleeper woke up, and clears a wake that was heeded.
    pub fn observe(&mut self, timed_out: bool) -> (outcome: Result<WakeupReason, Fault>)
        ensures
            outcome == old(self).observed(timed_out).0,
            *final(self) == old(self).observed(timed_out).1,
    {
        if timed_out {
            return Ok(WakeupReason::Timeout);
        }
        if self.sleep_state == SLEEP_NORMAL {
            return Err(Fault::SpuriousWake);
        }
        match self.wake_call_instant {
            Some(instant) => {
                // Reset
                self.wake_call_instant = None;
                self.sleep_state = SLEEP_NORMAL;
                Ok(WakeupReason::Interrupted { wake_call_instant: instant })
            },
            None => Err(Fault::MissingWakeInstant),
        }
    }

    /// A wake that was noted is reported once, with its own instant, and then
    /// it is gone: the record is idle again, and from an idle record no later
    /// cycle can report a wake. It reports a timeout when its wait runs out,
    /// and a fault when it wakes early.
    pub proof fn lemma_no_stale_wake(instant: Instant, timed_out: bool)
        ensures
            SleepWakeContext::woken_at(instant).observed(false) == (
                Ok::<WakeupReason, Fault>(WakeupReason::Interrupted { wake_call_instant: instant }),
                SleepWakeContext::idle(),
            ),
            !(SleepWakeContext::idle().observed(timed_out).0 matches Ok(
                WakeupReason::Interrupted { .. },
            )),
            SleepWakeContext::idle().observed(timed_out).1 == SleepWakeContext::idle(),
    {
    }

    /// One wake, from the call to the acknowledgement, on a pair that is at
    /// rest. The sleeper heeds the wake once and clears the record. Whichever
    /// of the two reaches the barrier first is held there until the other has
    /// arrived: a waker that is first is not let go before the sleeper, which
    /// arrives only when it has read the record, and the barrier is idle
    /// again afterwards, ready for the next wake.
    pub proof fn lemma_wake_is_acknowledged(barrier: Counters, instant: Instant)
        requires
            barrier.idle(),
        ensures
            SleepWakeContext::woken_at(instant).observed(false) == (
                Ok::<WakeupReason, Fault>(WakeupReason::Interrupted { wake_call_instant: instant }),
                SleepWakeContext::idle(),
            ),
            !barrier.arrival().released_at(barrier.after_arrival().epoch),
            barrier.after_arrival().arrival() == Arrival::Second,
            barrier.arrival().released_at(barrier.after_arrival().after_arrival().epoch),
            barrier.after_arrival().after_arrival().idle(),
    {
        Counters::lemma_round_completes(barrier);
    }

    /// Both implementations read the same event the same way: a wake call
    /// that reaches the sleeper in time ends the sleep as an interruption
    /// that carries the instant of the call, and a deadline that passes ends
    /// it as a timeout.
    pub proof fn lemma_agrees_with_channel(record: SleepWakeContext, instant: Instant)
        ensures
            SleepWakeContext::woken_at(instant).observed(false).0 == reason_of(
                Reception::Delivered(instant),
            ),
            reason_of(Reception::Delivered(instant)) == Ok::<WakeupReason, Fault>(
                WakeupReason::Interrupted { wake_call_instant: instant },
            ),
            record.observed(true).0 == reason_of(Reception::TimedOut),
            reason_of(Reception::TimedOut) == Ok::<WakeupReason, Fault>(WakeupReason::Timeout),
    {
    }
}

#[verifier::external_type_specification]
#[verifier::external_body]
pub struct ExCondvar(Condvar);

#[verifier::external_type_specification]
#[verifier::external_body]
#[verifier::reject_recursive_types(T)]
pub struct ExMutex<T: ?Sized>(Mutex<T>);

#[verifier::external_type_specification]
#[verifier::external_body]
#[verifier::reject_recursive_types(T)]
pub struct ExMutexGuard<'a, T: ?Sized + 'a>(MutexGuard<'a, T>);

/// Puts `value` behind a new mutex, through `Mutex::new`.
///
/// Trusted. Nothing is claimed of the mutex.
#[verifier::external_body]
fn guard_with_mutex<T>(value: T) -> (mutex: Mutex<T>) {
    Mutex::new(value)
}

/// A new condition variable, from `Condvar::new`.
///
/// Trusted. Nothing is claimed of it.
#[verifier::external_body]
fn new_condvar() -> (condvar: Condvar) {
    Condvar::new()
}

/// Acquires the mutex through `Mutex::lock`, waiting for it if need be.
///
/// Trusted. `Fault::Poisoned` stands for the error of `lock`, which comes
/// when a thread has panicked while it held the mutex.
#[verifier::external_body]
fn lock<'a, T>(mutex: &'a Mutex<T>) -> (locked: Result<MutexGuard<'a, T>, Fault>)
    ensures
        locked matches Err(fault) ==> fault == Fault::Poisoned,
{
    match mutex.lock() {
        Ok(guard) => Ok(guard),
        Err(_) => Err(Fault::Poisoned),
    }
}

/// Gives up the mutex and waits to be notified, for `secs` seconds and
/// `nanos` nanoseconds at most, through `Condvar::wait_timeout`. Returns the
/// mutex, acquired again, and whether the wait is known to have run out.
///
/// Trusted. When and why the wait ends is up to the other thread and the
/// clock. `Fault::Poisoned` stands for the error of `wait_timeout`. `nanos`
/// is kept below one second, where `Duration::new` cannot overflow.
#[verifier::external_body]
fn wait_timeout<'a, T>(condvar: &Condvar, guard: MutexGuard<'a, T>, secs: u64, nanos: u32) -> (woken:
    Result<(MutexGuard<'a, T>, bool), Fault>)
    requires
        nanos < NANOS_PER_SEC,
    ensures
        woken matches Err(fault) ==> fault == Fault::Poisoned,
{
    match condvar.wait_timeout(guard, Duration::new(secs, nanos)) {
        Ok((guard, result)) => Ok((guard, result.timed_out())),
        Err(_) => Err(Fault::Poisoned),
    }
}

/// Wakes one thread that waits on the condition variable, through
/// `Condvar::notify_one`.
///
/// Trusted. It returns nothing.
#[verifier::external_body]
fn notify_one(condvar: &Condvar) {
    condvar.notify_one()
}

/// Copies out what the mutex guards, through the guard's `Deref`.
///
/// Trusted. The value is whatever the last holder of the mutex left there.
#[verifier::external_body]
fn read<T: Copy>(guard: &MutexGuard<'_, T>) -> (value: T) {
    **guard
}

/// Replaces what the mutex guards, through the guard's `DerefMut`.
///
/// Trusted. Nothing is stated of the guard afterwards.
#[verifier::external_body]
fn write<T>(guard: &mut MutexGuard<'_, T>, value: T) {
    **guard = value;
}

/// The wake record with its mutex, and the condition variable that
/// announces a change of it.
#[derive(Debug)]
pub struct SharedState {
    condvar: Condvar,
    mutex: Mutex<SleepWakeContext>,
}

#[derive(Debug)]
pub struct CondvarSleeper {
    shared_state: Arc<SharedState>,
    // Helper to synchronize sleep_interruptible() and wake()
    synchronization_point: Arc<NoDelayBarrier>,
}

#[derive(Debug)]
pub struct CondvarWaker {
    shared_state: Arc<SharedState>,
    // Helper to synchronize sleep_interruptible() and wake()
    synchronization_point: Arc<NoDelayBarrier>,
}

/// Creates a sleeper and the waker that belongs to it.
///
/// The two share one wake record behind one mutex, with one condition
/// variable, and one barrier, at which every wake is acknowledged. It is a
/// barrier of their own, with the patience of [`NoDelayBarrier::new`].
#[must_use]
pub fn new_pair() -> (pair: (CondvarSleeper, CondvarWaker))
    ensures
        pair.0.shared_state() == pair.1.shared_state(),
        pair.0.barrier() == pair.1.barrier(),
        pair.0.barrier().laps() == SPIN_LAPS,
{
    let mutex = guard_with_mutex(SleepWakeContext::default());
    let condvar = new_condvar();
    let shared_state = Arc::new(SharedState { condvar, mutex });
    let synchronization_point = Arc::new(NoDelayBarrier::new());

    let sleeper = CondvarSleeper {
        shared_state: shared_state.clone(),
        synchronization_point: synchronization_point.clone(),
    };
    let waker = CondvarWaker { shared_state, synchronization_point };

    (sleeper, waker)
}

impl CondvarSleeper {
    /// The record, mutex and condition variable that this sleeper waits on.
    pub closed spec fn shared_state(&self) -> SharedState {
        *self.shared_state
    }

    /// The barrier at which this sleeper acknowledges a wake.
    pub closed spec fn barrier(&self) -> NoDelayBarrier {
        *self.synchronization_point
    }
}

impl Sleeper for CondvarSleeper {
    /// Waits on the condition variable for `sleep_duration` at most, then
    /// reads the wake record as [`SleepWakeContext::observed`] says. A wake is
    /// acknowledged at the barrier before the function returns.
    fn sleep_interruptible(&self, sleep_duration: TimeSpan) -> (outcome: Result<
        WakeupReason,
        Fault,
    >)
        ensures
            outcome matches Err(fault) ==> fault == Fault::Poisoned || fault == Fault::SpuriousWake
                || fault == Fault::MissingWakeInstant || fault == Fault::Stalled,
    {
        let guard = lock(&self.shared_state.mutex)?;
        let (mut guard, timed_out) = wait_timeout(
            &self.shared_state.condvar,
            guard,
            sleep_duration.as_secs(),
            sleep_duration.subsec_nanos(),
        )?;
        let mut record = read(&guard);
        let reason = record.observe(timed_out)?;
        write(&mut guard, record);
        match reason {
            WakeupReason::Interrupted { .. } => {
                // Unblock Waker::wake()
                if !self.synchronization_point.wait() {
                    return Err(Fault::Stalled);
                }
            },
            WakeupReason::Timeout => {},
        }
        Ok(reason)
    }
}

impl CondvarWaker {
    /// The record, mutex and condition variable that this waker signals.
    pub closed spec fn shared_state(&self) -> SharedState {
        *self.shared_state
    }

    /// The barrier at which this waker waits for the acknowledgement.
    pub closed spec fn barrier(&self) -> NoDelayBarrier {
        *self.synchronization_point
    }

    /// The first half of [`Waker::wake`]: notes the wake in the shared
    /// record, notifies the sleeper and arrives at the barrier, without
    /// waiting there.
    pub fn begin_wake(&self) -> (outcome: Result<Arrival, Fault>)
        ensures
            outcome matches Err(fault) ==> fault == Fault::Poisoned,
    {
        self.signal()?;
        Ok(self.synchronization_point.arrive())
    }

    /// Notes the wake under the lock and notifies the sleeper.
    fn signal(&self) -> (outcome: Result<(), Fault>)
        ensures
            outcome matches Err(fault) ==> fault == Fault::Poisoned,
    {
        let mut guard = lock(&self.shared_state.mutex)?;
        let mut record = read(&guard);
        record.record_wake(now());
        write(&mut guard, record);
        notify_one(&self.shared_state.condvar);
        Ok(())
    }

    /// The second half of [`Waker::wake`]: waits until the sleeper has
    /// acknowledged the wake that `arrival` belongs to.
    pub fn finish_wake(&self, arrival: &Arrival) -> (outcome: Result<(), Fault>)
        ensures
            arrival is Second ==> outcome is Ok,
            outcome matches Err(fault) ==> fault == Fault::Stalled,
    {
        // Wait for Sleeper to ACK
        if self.synchronization_point.wait_for(arrival) {
            Ok(())
        } else {
            Err(Fault::Stalled)
        }
    }
}

impl Waker for CondvarWaker {
    fn wake(&self) -> (outcome: Result<(), Fault>)
        ensures
            outcome matches Err(fault) ==> fault == Fault::Poisoned || fault == Fault::Stalled,
    {
        let arrival = self.begin_wake()?;
        self.finish_wake(&arrival)
    }
}

} // verus!
