//! The controlling side of a measurement run: what to do in a cycle, where a
//! record belongs, and the mean of the recorded delays.

use crate::fault::Fault;
use crate::synchronization::NoDelayBarrier;
use crate::time::TimeSpan;
use crate::time::MAX_NANOS;
use crate::transport::receive;
use crate::Measurement;
use crate::Measurements;
use crate::Waker;
use crate::WakeupContext;
use crate::WakeupReason;
use std::sync::mpsc::Receiver;
use vstd::prelude::*;

verus! {

/// The last stretch of a precise sleep is spent spinning. It is this long, in
/// nanoseconds.
pub const SAFE_SLEEP_NANOS: u128 = 2_000_000;

/// How many records a run makes room for ahead of time.
pub const RESERVED_RECORDS: usize = 1_000_000;

/// A random `bool` from `fastrand::bool`, which draws from the generator of
/// the calling thread.
///
/// Trusted. Either value can come back.
#[verifier::external_body]
fn random_bool() -> (drawn: bool) {
    fastrand::bool()
}

/// A random number from `fastrand::usize`, called on the range from `low` to
/// `high`, both included.
///
/// Trusted. The number lies in the range. The range is kept non-empty,
/// because `fastrand::usize` panics on an empty one.
#[verifier::external_body]
fn random_between(low: usize, high: usize) -> (drawn: usize)
    requires
        low <= high,
    ensures
        low <= drawn <= high,
{
    fastrand::usize(low..=high)
}

/// What the controlling thread does in one cycle.
#[derive(Debug, Clone, Copy)]
pub struct CyclePlan {
    /// Whether it wakes the sleeper, or lets the sleep run out.
    pub interrupt: bool,
    /// How long it waits after the start of the cycle before it does so.
    pub sleep: TimeSpan,
}

/// The latest moment in a time slice at which a wake is still planned, in
/// microseconds from its start: 95 % of the slice.
pub open spec fn latest_wake_micros(timeslice: TimeSpan) -> nat {
    timeslice@ / 1_000 * 95 / 100
}

impl CyclePlan {
    /// Whether a wake can be planned within `timeslice`: its length in
    /// microseconds, times 95, has to be a `usize`.
    pub open spec fn plannable(timeslice: TimeSpan) -> bool {
        timeslice@ / 1_000 * 95 <= usize::MAX
    }

    /// Whether `timeslice` is short enough for [`plan_cycle`].
    pub fn can_plan(timeslice: TimeSpan) -> (possible: bool)
        ensures
            possible == CyclePlan::plannable(timeslice),
    {
        let micros: u128 = timeslice.as_micros();
        micros * 95 <= usize::MAX as u128
    }

    /// The plan for a cycle, given what was drawn for it: whether to wake the
    /// sleeper, and after how many microseconds.
    ///
    /// A cycle without a wake lasts for the whole `timeslice`.
    pub fn from_draw(timeslice: TimeSpan, interrupt: bool, wake_micros: usize) -> (plan: CyclePlan)
        ensures
            plan.interrupt == interrupt,
            interrupt ==> plan.sleep@ == wake_micros * 1_000 && plan.sleep.normalized(),
            !interrupt ==> plan.sleep == timeslice,
    {
        if interrupt {
            CyclePlan { interrupt, sleep: TimeSpan::from_micros(wake_micros as u64) }
        } else {
            CyclePlan { interrupt, sleep: timeslice }
        }
    }
}

/// Plans a cycle at random: with or without a wake, and a wake at a whole
/// number of microseconds within the first 95 % of `timeslice`.
pub fn plan_cycle(timeslice: TimeSpan) -> (plan: CyclePlan)
    requires
        CyclePlan::plannable(timeslice),
    ensures
        !plan.interrupt ==> plan.sleep == timeslice,
        plan.interrupt ==> plan.sleep@ % 1_000 == 0 && plan.sleep@ / 1_000 <= latest_wake_micros(
            timeslice,
        ),
        plan.sleep@ <= timeslice@,
{
    let do_interrupt = random_bool();
    if do_interrupt {
        let micros: u128 = timeslice.as_micros();
        let max_us: usize = (micros * 95 / 100) as usize;
        let rand_us = random_between(0, max_us);
        CyclePlan::from_draw(timeslice, true, rand_us)
    } else {
        CyclePlan::from_draw(timeslice, false, 0)
    }
}

/// The part of a precise sleep of `duration` that may be spent asleep: all
/// but the last [`SAFE_SLEEP_NANOS`]. `None` when `duration` is no longer
/// than that, and all of it is spent spinning.
pub fn coarse_sleep(duration: TimeSpan) -> (asleep: Option<TimeSpan>)
    ensures
        duration@ > SAFE_SLEEP_NANOS <==> asleep.is_some(),
        asleep matches Some(span) ==> span@ == duration@ - SAFE_SLEEP_NANOS && span.normalized(),
{
    let whole: u128 = duration.as_nanos();
    if whole > SAFE_SLEEP_NANOS {
        TimeSpan::from_nanos(whole - SAFE_SLEEP_NANOS)
    } else {
        None
    }
}

/// The sum of the delays of `data`, in nanoseconds.
pub open spec fn total_delay(data: Seq<Measurement>) -> nat
    decreases data.len(),
{
    if data.len() == 0 {
        0
    } else {
        total_delay(data.drop_last()) + data.last().wakeup_context.delay@
    }
}

/// The delays of a part of `data` add up to no more than those of all of it.
pub proof fn lemma_total_delay_grows(data: Seq<Measurement>, upto: int)
    requires
        0 <= upto <= data.len(),
    ensures
        total_delay(data.take(upto)) <= total_delay(data),
    decreases data.len(),
{
    if upto == data.len() {
        assert(data.take(upto) == data);
    } else {
        assert(data.drop_last().take(upto) == data.take(upto));
        lemma_total_delay_grows(data.drop_last(), upto);
    }
}

/// The mean delay of `data`, rounded down to the nanosecond; zero for no
/// data. `None` when the delays add up to more than a [`TimeSpan`] holds.
pub fn calc_mean(data: &[Measurement]) -> (mean: Option<TimeSpan>)
    ensures
        total_delay(data@) > MAX_NANOS <==> mean is None,
        mean matches Some(span) ==> span.normalized() && span@ == if data@.len() == 0 {
            0
        } else {
            total_delay(data@) / data@.len()
        },
{
    let len = data.len();
    if len == 0 {
        return Some(TimeSpan::zero());
    }
    let mut sum = TimeSpan::zero();
    let mut index: usize = 0;
    while index < len
        invariant
            len == data@.len(),
            index <= len,
            sum@ == total_delay(data@.take(index as int)),
            sum.normalized(),
        decreases len - index,
    {
        let delay = data[index].wakeup_context.delay;
        proof {
            assert(data@.take(index + 1).drop_last() == data@.take(index as int));
            lemma_total_delay_grows(data@, index + 1);
        }
        match sum.checked_add(&delay) {
            Some(longer) => {
                sum = longer;
            },
            None => {
                return None;
            },
        }
        index = index + 1;
    }
    proof {
        assert(data@.take(len as int) == data@);
        TimeSpan::lemma_view_bounded(sum);
    }
    Some(sum.divided_by(len))
}

impl Measurements {
    /// Every record is filed under the reason it ended for, and `rounds`
    /// counts them all.
    pub open spec fn wf(&self) -> bool {
        &&& self.rounds == self.interrupted@.len() + self.timeouted@.len()
        &&& forall|i: int|
            0 <= i < self.interrupted@.len()
                ==> #[trigger] self.interrupted@[i].wakeup_context.reason is Interrupted
        &&& forall|i: int|
            0 <= i < self.timeouted@.len()
                ==> #[trigger] self.timeouted@[i].wakeup_context.reason is Timeout
    }

    /// No records yet.
    pub fn new() -> (measurements: Measurements)
        ensures
            measurements.wf(),
            measurements.rounds == 0,
            measurements.interrupted@.len() == 0,
            measurements.timeouted@.len() == 0,
    {
        Measurements {
            interrupted: Vec::with_capacity(RESERVED_RECORDS),
            timeouted: Vec::with_capacity(RESERVED_RECORDS),
            rounds: 0,
        }
    }

    /// Whether the run has the `rounds` records that were asked for.
    pub fn is_complete(&self, rounds: usize) -> (done: bool)
        ensures
            done == (self.rounds >= rounds),
    {
        self.rounds >= rounds
    }

    /// Files the record of a cycle, after checking that the cycle ended the
    /// way it was planned: by a wake if one was planned, else by running out.
    /// A record of the other kind is a fault and is not filed.
    pub fn record(&mut self, interrupt_planned: bool, context: WakeupContext) -> (outcome: Result<
        (),
        Fault,
    >)
        requires
            old(self).rounds < usize::MAX,
        ensures
            old(self).wf() ==> final(self).wf(),
            interrupt_planned == (context.reason is Interrupted) <==> outcome is Ok,
            outcome is Err ==> outcome == Err::<(), Fault>(Fault::UnexpectedReason) && *final(self)
                == *old(self),
            outcome is Ok ==> final(self).rounds == old(self).rounds + 1,
            outcome is Ok && interrupt_planned ==> final(self).interrupted@ == old(
                self,
            ).interrupted@.push(Measurement { wakeup_context: context }) && final(self).timeouted@
                == old(self).timeouted@,
            outcome is Ok && !interrupt_planned ==> final(self).timeouted@ == old(
                self,
            ).timeouted@.push(Measurement { wakeup_context: context }) && final(self).interrupted@
                == old(self).interrupted@,
    {
        let interrupted = match context.reason {
            WakeupReason::Interrupted { .. } => true,
            WakeupReason::Timeout => false,
        };
        if interrupted != interrupt_planned {
            return Err(Fault::UnexpectedReason);
        }
        if interrupt_planned {
            self.interrupted.push(Measurement { wakeup_context: context });
        } else {
            self.timeouted.push(Measurement { wakeup_context: context });
        }
        self.rounds = self.rounds + 1;
        Ok(())
    }
}

/// Opens a cycle on the controlling thread: plans it, then meets the sleeper
/// thread at `sleep_barrier`, from where the sleeper starts its sleep.
pub fn start_cycle(timeslice: TimeSpan, sleep_barrier: &NoDelayBarrier) -> (outcome: Result<
    CyclePlan,
    Fault,
>)
    requires
        CyclePlan::plannable(timeslice),
    ensures
        outcome matches Err(fault) ==> fault == Fault::Stalled,
        outcome matches Ok(plan) ==> plan.sleep@ <= timeslice@ && (!plan.interrupt ==> plan.sleep
            == timeslice),
{
    let plan = plan_cycle(timeslice);
    // Wait for the other thread to start a new cycle.
    if !sleep_barrier.wait() {
        return Err(Fault::Stalled);
    }
    Ok(plan)
}

/// Closes a cycle on the controlling thread, once the time of `plan` has
/// passed: wakes the sleeper if that was planned, takes the record of the
/// cycle from `receiver`, and files it.
pub fn finish_cycle<W: Waker>(
    plan: &CyclePlan,
    waker: &W,
    receiver: &Receiver<WakeupContext>,
    measurements: &mut Measurements,
) -> (outcome: Result<(), Fault>)
    requires
        old(measurements).rounds < usize::MAX,
    ensures
        old(measurements).wf() ==> final(measurements).wf(),
        outcome is Ok ==> final(measurements).rounds == old(measurements).rounds + 1,
        outcome is Ok ==> if plan.interrupt {
            &&& final(measurements).interrupted@.len() == old(measurements).interrupted@.len() + 1
            &&& final(measurements).interrupted@.drop_last() == old(measurements).interrupted@
            &&& final(measurements).interrupted@.last().wakeup_context.reason is Interrupted
            &&& final(measurements).timeouted@ == old(measurements).timeouted@
        } else {
            &&& final(measurements).timeouted@.len() == old(measurements).timeouted@.len() + 1
            &&& final(measurements).timeouted@.drop_last() == old(measurements).timeouted@
            &&& final(measurements).timeouted@.last().wakeup_context.reason is Timeout
            &&& final(measurements).interrupted@ == old(measurements).interrupted@
        },
        outcome is Err ==> *final(measurements) == *old(measurements),
        // Without a planned wake the waker is left alone, so that its faults
        // cannot come.
        !plan.interrupt ==> (outcome matches Err(fault) ==> fault == Fault::Disconnected || fault
            == Fault::UnexpectedReason),
{
    if plan.interrupt {
        waker.wake()?;
    }
    let wakeup_context = receive(receiver)?;
    measurements.record(plan.interrupt, wakeup_context)
}

} // verus!
