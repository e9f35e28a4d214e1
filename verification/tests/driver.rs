use benchmark_interruptible_sleep::driver::{
    calc_mean, coarse_sleep, finish_cycle, plan_cycle, start_cycle, CyclePlan,
};
use benchmark_interruptible_sleep::fault::Fault;
use benchmark_interruptible_sleep::synchronization::NoDelayBarrier;
use benchmark_interruptible_sleep::time::{TimeSpan, MAX_NANOS};
use benchmark_interruptible_sleep::{
    Measurement, Measurements, Waker, WakeupContext, WakeupReason,
};
use std::cell::Cell;
use std::sync::mpsc::sync_channel;
use std::time::Instant;

fn timed_out(delay_nanos: u128) -> WakeupContext {
    let expected_duration = TimeSpan::from_millis(50);
    let delay = TimeSpan::from_nanos(delay_nanos).unwrap();
    WakeupContext {
        reason: WakeupReason::Timeout,
        expected_duration,
        actual_duration: expected_duration.checked_add(&delay).unwrap(),
        delay,
    }
}

fn interrupted(delay_nanos: u128) -> WakeupContext {
    let expected_duration = TimeSpan::from_millis(20);
    let delay = TimeSpan::from_nanos(delay_nanos).unwrap();
    WakeupContext {
        reason: WakeupReason::Interrupted { wake_call_instant: Instant::now() },
        expected_duration,
        actual_duration: expected_duration.checked_add(&delay).unwrap(),
        delay,
    }
}

fn measurement(delay_nanos: u128) -> Measurement {
    Measurement { wakeup_context: timed_out(delay_nanos) }
}

// Counts its wakes and never waits.
struct Counting(Cell<usize>);

impl Waker for Counting {
    fn wake(&self) -> Result<(), Fault> {
        self.0.set(self.0.get() + 1);
        Ok(())
    }
}

// Has lost its sleeper.
struct Lost;

impl Waker for Lost {
    fn wake(&self) -> Result<(), Fault> {
        Err(Fault::Disconnected)
    }
}

#[test]
fn mean_of_nothing_is_zero() {
    assert_eq!(calc_mean(&[]), Some(TimeSpan::zero()));
}

#[test]
fn mean_of_one_is_itself() {
    assert_eq!(calc_mean(&[measurement(1_234)]), TimeSpan::from_nanos(1_234));
}

#[test]
fn mean_is_exact() {
    let data = [measurement(10), measurement(20), measurement(45)];
    assert_eq!(calc_mean(&data), TimeSpan::from_nanos(25));
}

#[test]
fn mean_rounds_down() {
    let data = [measurement(1), measurement(2)];
    assert_eq!(calc_mean(&data), TimeSpan::from_nanos(1));
    let data = [measurement(0), measurement(0), measurement(2)];
    assert_eq!(calc_mean(&data), Some(TimeSpan::zero()));
}

#[test]
fn mean_carries_seconds() {
    let data = [measurement(1_500_000_000), measurement(2_500_000_000)];
    assert_eq!(calc_mean(&data), TimeSpan::new(2, 0));
}

#[test]
fn mean_of_too_much_is_none() {
    let huge = Measurement {
        wakeup_context: WakeupContext {
            reason: WakeupReason::Timeout,
            expected_duration: TimeSpan::zero(),
            actual_duration: TimeSpan::from_nanos(MAX_NANOS).unwrap(),
            delay: TimeSpan::from_nanos(MAX_NANOS).unwrap(),
        },
    };
    assert_eq!(calc_mean(&[huge]), TimeSpan::from_nanos(MAX_NANOS));
    assert_eq!(calc_mean(&[huge, measurement(0)]), TimeSpan::from_nanos(MAX_NANOS / 2));
    assert_eq!(calc_mean(&[huge, measurement(1)]), None);
    assert_eq!(calc_mean(&[measurement(1), huge, measurement(5)]), None);
}

#[test]
fn coarse_sleep_leaves_two_milliseconds() {
    assert_eq!(
        coarse_sleep(TimeSpan::from_millis(50)),
        Some(TimeSpan::from_millis(48))
    );
    assert_eq!(
        coarse_sleep(TimeSpan::from_nanos(2_000_001).unwrap()),
        TimeSpan::from_nanos(1)
    );
    assert_eq!(coarse_sleep(TimeSpan::from_millis(2)), None);
    assert_eq!(coarse_sleep(TimeSpan::from_millis(1)), None);
    assert_eq!(coarse_sleep(TimeSpan::zero()), None);
}

#[test]
fn plan_from_draw_without_wake_lasts_the_timeslice() {
    let timeslice = TimeSpan::from_millis(50);
    let plan = CyclePlan::from_draw(timeslice, false, 123);
    assert!(!plan.interrupt);
    assert_eq!(plan.sleep, timeslice);
}

#[test]
fn plan_from_draw_with_wake_lasts_the_drawn_micros() {
    let timeslice = TimeSpan::from_millis(50);
    let plan = CyclePlan::from_draw(timeslice, true, 47_500);
    assert!(plan.interrupt);
    assert_eq!(plan.sleep, TimeSpan::from_micros(47_500));
    assert_eq!(CyclePlan::from_draw(timeslice, true, 0).sleep, TimeSpan::zero());
}

#[test]
fn can_plan_up_to_the_limit() {
    assert!(CyclePlan::can_plan(TimeSpan::zero()));
    assert!(CyclePlan::can_plan(TimeSpan::from_millis(100)));
    let limit = (usize::MAX / 95) as u128;
    assert!(CyclePlan::can_plan(TimeSpan::from_nanos(limit * 1_000 + 999).unwrap()));
    assert!(!CyclePlan::can_plan(TimeSpan::from_nanos((limit + 1) * 1_000).unwrap()));
    assert!(!CyclePlan::can_plan(TimeSpan::from_nanos(MAX_NANOS).unwrap()));
}

#[test]
fn planned_wakes_come_within_95_percent_of_the_timeslice() {
    let timeslice = TimeSpan::from_millis(50);
    let mut wakes = 0;
    let mut timeouts = 0;
    let mut shortest = timeslice;
    let mut longest = TimeSpan::zero();
    for _ in 0..2_000 {
        let plan = plan_cycle(timeslice);
        if plan.interrupt {
            wakes += 1;
            assert!(plan.sleep <= TimeSpan::from_micros(47_500));
            assert_eq!(plan.sleep.as_nanos() % 1_000, 0);
            shortest = shortest.min(plan.sleep);
            longest = longest.max(plan.sleep);
        } else {
            timeouts += 1;
            assert_eq!(plan.sleep, timeslice);
        }
    }
    // Both kinds of cycle are drawn, and the wakes are spread out.
    assert!(wakes > 0);
    assert!(timeouts > 0);
    assert!(shortest < TimeSpan::from_millis(10));
    assert!(longest > TimeSpan::from_millis(37));
}

#[test]
fn planned_wake_in_a_tiny_timeslice_comes_at_once() {
    // 1 microsecond times 95 % rounds down to no microsecond at all.
    let timeslice = TimeSpan::from_nanos(1_999).unwrap();
    for _ in 0..100 {
        let plan = plan_cycle(timeslice);
        if plan.interrupt {
            assert_eq!(plan.sleep, TimeSpan::zero());
        } else {
            assert_eq!(plan.sleep, timeslice);
        }
        assert_eq!(plan_cycle(TimeSpan::zero()).sleep, TimeSpan::zero());
    }
}

#[test]
fn measurements_start_empty() {
    let measurements = Measurements::new();
    assert_eq!(measurements.rounds, 0);
    assert!(measurements.interrupted.is_empty());
    assert!(measurements.timeouted.is_empty());
}

#[test]
fn run_is_complete_with_enough_rounds() {
    let mut measurements = Measurements::new();
    assert!(measurements.is_complete(0));
    assert!(!measurements.is_complete(1));
    assert_eq!(measurements.record(false, timed_out(100)), Ok(()));
    assert_eq!(measurements.record(true, interrupted(100)), Ok(()));
    assert!(measurements.is_complete(1));
    assert!(measurements.is_complete(2));
    assert!(!measurements.is_complete(3));
    assert!(!measurements.is_complete(usize::MAX));
}

#[test]
fn record_files_by_reason() {
    let mut measurements = Measurements::new();
    assert_eq!(measurements.record(false, timed_out(100)), Ok(()));
    assert_eq!(measurements.record(true, interrupted(300)), Ok(()));
    assert_eq!(measurements.record(true, interrupted(500)), Ok(()));
    assert_eq!(measurements.rounds, 3);
    assert_eq!(measurements.timeouted.len(), 1);
    assert_eq!(measurements.interrupted.len(), 2);
    assert_eq!(
        measurements.timeouted[0].wakeup_context.delay,
        TimeSpan::from_nanos(100).unwrap()
    );
    assert_eq!(
        measurements.interrupted[1].wakeup_context.delay,
        TimeSpan::from_nanos(500).unwrap()
    );
    assert_eq!(calc_mean(&measurements.interrupted), TimeSpan::from_nanos(400));
    assert_eq!(calc_mean(&measurements.timeouted), TimeSpan::from_nanos(100));
}

#[test]
fn record_refuses_an_unplanned_reason() {
    let mut measurements = Measurements::new();
    assert_eq!(
        measurements.record(true, timed_out(100)),
        Err(Fault::UnexpectedReason)
    );
    assert_eq!(
        measurements.record(false, interrupted(100)),
        Err(Fault::UnexpectedReason)
    );
    assert_eq!(measurements.rounds, 0);
    assert!(measurements.interrupted.is_empty());
    assert!(measurements.timeouted.is_empty());
}

#[test]
fn start_cycle_plans_and_meets_the_sleeper() {
    let sleep_barrier = NoDelayBarrier::new();
    let timeslice = TimeSpan::from_millis(50);
    for _ in 0..20 {
        // The sleeper thread is at the barrier already.
        let sleeper = sleep_barrier.arrive();
        let plan = start_cycle(timeslice, &sleep_barrier).unwrap();
        assert!(sleep_barrier.is_released(&sleeper));
        assert!(plan.sleep <= timeslice);
        assert!(plan.interrupt || plan.sleep == timeslice);
    }
}

#[test]
fn start_cycle_stalls_without_a_sleeper() {
    let sleep_barrier = NoDelayBarrier::with_laps(1000);
    assert!(matches!(
        start_cycle(TimeSpan::from_millis(50), &sleep_barrier),
        Err(Fault::Stalled)
    ));
}

#[test]
fn finish_cycle_wakes_only_if_planned() {
    let (sender, receiver) = sync_channel::<WakeupContext>(1);
    let waker = Counting(Cell::new(0));
    let mut measurements = Measurements::new();

    sender.send(timed_out(100)).unwrap();
    let plan = CyclePlan::from_draw(TimeSpan::from_millis(50), false, 0);
    assert_eq!(finish_cycle(&plan, &waker, &receiver, &mut measurements), Ok(()));
    assert_eq!(waker.0.get(), 0);
    assert_eq!(measurements.timeouted.len(), 1);

    sender.send(interrupted(200)).unwrap();
    let plan = CyclePlan::from_draw(TimeSpan::from_millis(50), true, 20_000);
    assert_eq!(finish_cycle(&plan, &waker, &receiver, &mut measurements), Ok(()));
    assert_eq!(waker.0.get(), 1);
    assert_eq!(measurements.interrupted.len(), 1);
    assert_eq!(measurements.rounds, 2);
}

#[test]
fn finish_cycle_reports_faults() {
    let (sender, receiver) = sync_channel::<WakeupContext>(1);
    let mut measurements = Measurements::new();

    // the sleeper ended for another reason than planned
    sender.send(timed_out(100)).unwrap();
    let wake = CyclePlan::from_draw(TimeSpan::from_millis(50), true, 20_000);
    assert_eq!(
        finish_cycle(&wake, &Counting(Cell::new(0)), &receiver, &mut measurements),
        Err(Fault::UnexpectedReason)
    );

    // the waker failed: nothing is taken from the queue
    sender.send(interrupted(100)).unwrap();
    assert_eq!(
        finish_cycle(&wake, &Lost, &receiver, &mut measurements),
        Err(Fault::Disconnected)
    );
    assert!(receiver.try_recv().is_ok());

    // the sleeper thread is gone
    drop(sender);
    let timeout = CyclePlan::from_draw(TimeSpan::from_millis(50), false, 0);
    assert_eq!(
        finish_cycle(&timeout, &Counting(Cell::new(0)), &receiver, &mut measurements),
        Err(Fault::Disconnected)
    );
    assert_eq!(measurements.rounds, 0);
}
