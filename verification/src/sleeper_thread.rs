//! One cycle of the thread that sleeps on a [`Sleeper`] and measures the
//! effective wakeup times, and the switch that ends it.
//!
//! The thread itself, which repeats [`run_cycle`] until it is told to stop,
//! belongs to the program that owns it.

use crate::fault::Fault;
use crate::synchronization::NoDelayBarrier;
use crate::time::elapsed_since;
use crate::time::nanos_between;
use crate::time::now;
use crate::time::span_between;
use crate::time::TimeSpan;
use crate::transport::send;
use crate::Sleeper;
use crate::WakeupContext;
use crate::WakeupReason;
use core::sync::atomic::AtomicBool;
use core::sync::atomic::Ordering;
use std::sync::mpsc::SyncSender;
use std::sync::Arc;
use std::time::Instant;
use vstd::prelude::*;

verus! {

pub const SHOULD_EXIT: bool = true;

pub const SHOULD_CONTINUE: bool = false;

/// What the controlling thread and the sleeper thread share: the exit flag
/// and the barrier at which each cycle starts.
#[derive(Debug)]
pub struct ThreadControl {
    thread_task: Arc<AtomicBool>,
    sleep_barrier: Arc<NoDelayBarrier>,
}

/// What the sleeper thread does after a cycle.
#[derive(Debug, Clone, Copy, PartialEq, Eq)]
pub enum CycleStep {
    /// The cycle was measured and the given record sent. Another cycle
    /// follows.
    Continue(WakeupContext),
    /// The thread was told to stop. Nothing was sent.
    Exit,
}

impl Clone for ThreadControl {
    /// Another handle to the same flag and the same barrier.
    fn clone(&self) -> (control: ThreadControl)
        ensures
            control == *self,
    {
        ThreadControl {
            thread_task: self.thread_task.clone(),
            sleep_barrier: self.sleep_barrier.clone(),
        }
    }
}

impl ThreadControl {
    /// The barrier at which the thread starts each cycle, and from which an
    /// exit request releases it.
    pub closed spec fn sleep_barrier(&self) -> NoDelayBarrier {
        *self.sleep_barrier
    }

    /// The control of a thread that starts its cycles at `sleep_barrier`. The
    /// thread is not told to stop yet.
    pub fn new(sleep_barrier: Arc<NoDelayBarrier>) -> (control: ThreadControl)
        ensures
            control.sleep_barrier() == *sleep_barrier,
    {
        ThreadControl { thread_task: Arc::new(AtomicBool::new(SHOULD_CONTINUE)), sleep_barrier }
    }

    /// Whether the thread has been told to stop.
    pub fn should_exit(&self) -> (exit: bool) {
        self.thread_task.load(Ordering::SeqCst) == SHOULD_EXIT
    }

    /// Tells the thread to exit on its next look at the flag, and releases it
    /// from the barrier in case it waits there for a cycle that will not come.
    pub fn request_exit(&self) {
        self.thread_task.store(SHOULD_EXIT, Ordering::SeqCst);

        // unblock thread from "waiting for work"
        self.sleep_barrier.unblock();
    }
}

/// Whether the sleeper thread goes on to sleep once it has been to the
/// barrier.
///
/// `met` says whether the controlling thread was met there, and
/// `exit_requested` what the exit flag read afterwards. A thread that has
/// waited in vain has stalled. A thread that was told to stop goes no
/// further: it does not sleep and sends no record.
pub fn after_rendezvous(met: bool, exit_requested: bool) -> (next: Result<bool, Fault>)
    ensures
        next == (if !met {
            Err::<bool, Fault>(Fault::Stalled)
        } else {
            Ok::<bool, Fault>(!exit_requested)
        }),
{
    if !met {
        Err(Fault::Stalled)
    } else {
        Ok(!exit_requested)
    }
}

/// The record to send for a cycle that has just ended, if any.
///
/// A thread that was told to stop while it slept sends nothing, so that no
/// stale record is left in the queue. Otherwise the record is the one that
/// [`WakeupContext::measure`] derives.
pub fn conclude(
    exit_requested: bool,
    reason: WakeupReason,
    requested: TimeSpan,
    actual: TimeSpan,
    wake_offset: Option<TimeSpan>,
) -> (outcome: Result<Option<WakeupContext>, Fault>)
    ensures
        exit_requested ==> outcome == Ok::<Option<WakeupContext>, Fault>(None),
        !exit_requested ==> match outcome {
            Ok(Some(context)) => WakeupContext::measured(
                Ok(context),
                reason,
                requested,
                actual,
                wake_offset,
            ) && context.consistent(),
            Ok(None) => false,
            Err(fault) => WakeupContext::measured(
                Err(fault),
                reason,
                requested,
                actual,
                wake_offset,
            ),
        },
{
    if exit_requested {
        return Ok(None);
    }
    let context = WakeupContext::measure(reason, requested, actual, wake_offset)?;
    Ok(Some(context))
}

/// Runs one measurement cycle on the sleeper thread.
///
/// The thread meets the controlling thread at the barrier, sleeps on
/// `sleeper` for `default_sleep_duration` at most, and sends what it measured
/// to `sender`. It looks at the exit flag twice, after the barrier and after
/// the sleep, and stops without sending when the flag is set.
///
/// The record that was sent comes back with [`CycleStep::Continue`]. Its
/// expected time is the requested one after a timeout, and after a wake the
/// time from the start of the sleep to the wake call.
pub fn run_cycle<S: Sleeper>(
    control: &ThreadControl,
    sleeper: &S,
    default_sleep_duration: TimeSpan,
    sender: &SyncSender<WakeupContext>,
) -> (outcome: Result<CycleStep, Fault>)
    ensures
        outcome matches Ok(CycleStep::Continue(context)) ==> {
            &&& context.consistent()
            &&& context.expected_duration@ <= context.actual_duration@
            &&& context.reason is Timeout ==> context.expected_duration == default_sleep_duration
            &&& context.reason matches WakeupReason::Interrupted { wake_call_instant } ==> exists|
                begin: Instant,
            |
                #[trigger] nanos_between(begin, wake_call_instant) == Some(
                    context.expected_duration@,
                )
        },
{
    // Wait for the control thread to be ready for the next
    // measurement cycle.
    let met = control.sleep_barrier.wait();
    // Exit thread gracefully if necessary.
    let go_on = after_rendezvous(met, control.should_exit())?;
    if !go_on {
        return Ok(CycleStep::Exit);
    }
    let begin = now();
    let wakeup_reason = sleeper.sleep_interruptible(default_sleep_duration)?;
    let actual_sleep_duration_with_overhead = elapsed_since(&begin);

    let exit_requested = control.should_exit();
    let wake_offset = match wakeup_reason {
        WakeupReason::Interrupted { wake_call_instant } => span_between(&begin, &wake_call_instant),
        WakeupReason::Timeout => None,
    };
    let record = conclude(
        exit_requested,
        wakeup_reason,
        default_sleep_duration,
        actual_sleep_duration_with_overhead,
        wake_offset,
    )?;
    match record {
        // Exit directly, ignoring the sender.
        None => Ok(CycleStep::Exit),
        Some(wakeup_context) => {
            proof {
                use_type_invariant(&default_sleep_duration);
                if wakeup_context.reason is Timeout {
                    TimeSpan::lemma_view_injective(
                        wakeup_context.expected_duration,
                        default_sleep_duration,
                    );
                }
            }
            // Send the result to the control thread, allowing analysis.
            send(sender, wakeup_context)?;
            Ok(CycleStep::Continue(wakeup_context))
        },
    }
}

} // verus!
