//! Spans of time as exact nanosecond counts, and the monotonic clock.

use std::time::Instant;
use vstd::prelude::*;

verus! {

/// Nanoseconds in one second.
pub const NANOS_PER_SEC: u32 = 1_000_000_000;

/// The longest span a [`TimeSpan`] can hold, in nanoseconds:
/// `u64::MAX` whole seconds and one nanosecond short of another.
pub const MAX_NANOS: u128 = 18_446_744_073_709_551_615_999_999_999;

/// A non-negative span of time: whole seconds plus a sub-second remainder.
///
/// Its view is the total number of nanoseconds.
#[derive(Clone, Copy, Debug, PartialEq, Eq, PartialOrd, Ord, Structural)]
pub struct TimeSpan {
    secs: u64,
    nanos: u32,
}

impl View for TimeSpan {
    type V = nat;

    closed spec fn view(&self) -> nat {
        (self.secs as nat) * 1_000_000_000 + (self.nanos as nat)
    }
}

impl TimeSpan {
    /// The sub-second part stays below one second.
    #[verifier::type_invariant]
    pub closed spec fn normalized(self) -> bool {
        self.nanos < NANOS_PER_SEC
    }

    /// Two normalized spans of the same length are the same span.
    pub proof fn lemma_view_injective(a: TimeSpan, b: TimeSpan)
        requires
            a.normalized(),
            b.normalized(),
            a@ == b@,
        ensures
            a == b,
    {
    }

    /// No normalized span is longer than [`MAX_NANOS`].
    pub proof fn lemma_view_bounded(a: TimeSpan)
        requires
            a.normalized(),
        ensures
            a@ <= MAX_NANOS,
    {
    }

    /// The empty span.
    pub fn zero() -> (span: TimeSpan)
        ensures
            span@ == 0,
            span.normalized(),
    {
        TimeSpan { secs: 0, nanos: 0 }
    }

    /// A span of `secs` seconds and `nanos` nanoseconds; `None` when `nanos`
    /// is a full second or more.
    pub fn new(secs: u64, nanos: u32) -> (span: Option<TimeSpan>)
        ensures
            nanos < NANOS_PER_SEC <==> span.is_some(),
            span matches Some(s) ==> s@ == secs * 1_000_000_000 + nanos && s.normalized(),
    {
        if nanos < NANOS_PER_SEC {
            Some(TimeSpan { secs, nanos })
        } else {
            None
        }
    }

    /// A span of `nanos` nanoseconds; `None` when that is more than
    /// [`MAX_NANOS`].
    pub fn from_nanos(nanos: u128) -> (span: Option<TimeSpan>)
        ensures
            nanos <= MAX_NANOS <==> span.is_some(),
            span matches Some(s) ==> s@ == nanos && s.normalized(),
    {
        if nanos <= MAX_NANOS {
            let secs: u128 = nanos / 1_000_000_000;
            let rest: u128 = nanos % 1_000_000_000;
            Some(TimeSpan { secs: secs as u64, nanos: rest as u32 })
        } else {
            None
        }
    }

    /// A span of `millis` milliseconds.
    pub fn from_millis(millis: u64) -> (span: TimeSpan)
        ensures
            span@ == millis * 1_000_000,
            span.normalized(),
    {
        let rest: u64 = millis % 1_000;
        TimeSpan { secs: millis / 1_000, nanos: (rest * 1_000_000) as u32 }
    }

    /// A span of `micros` microseconds.
    pub fn from_micros(micros: u64) -> (span: TimeSpan)
        ensures
            span@ == micros * 1_000,
            span.normalized(),
    {
        let rest: u64 = micros % 1_000_000;
        TimeSpan { secs: micros / 1_000_000, nanos: (rest * 1_000) as u32 }
    }

    /// The whole seconds in this span.
    pub fn as_secs(&self) -> (secs: u64)
        ensures
            secs == self@ / 1_000_000_000,
    {
        proof {
            use_type_invariant(self);
        }
        self.secs
    }

    /// What is left of this span beyond its whole seconds, in nanoseconds.
    pub fn subsec_nanos(&self) -> (nanos: u32)
        ensures
            nanos == self@ % 1_000_000_000,
            nanos < NANOS_PER_SEC,
    {
        proof {
            use_type_invariant(self);
        }
        self.nanos
    }

    /// The whole span in nanoseconds.
    pub fn as_nanos(&self) -> (nanos: u128)
        ensures
            nanos == self@,
            nanos <= MAX_NANOS,
    {
        proof {
            use_type_invariant(self);
        }
        (self.secs as u128) * 1_000_000_000 + (self.nanos as u128)
    }

    /// The whole microseconds in this span.
    pub fn as_micros(&self) -> (micros: u128)
        ensures
            micros == self@ / 1_000,
            micros <= MAX_NANOS / 1_000,
    {
        self.as_nanos() / 1_000
    }

    /// Whether this span is no longer than `other`.
    pub fn le(&self, other: &TimeSpan) -> (shorter: bool)
        ensures
            shorter == (self@ <= other@),
    {
        self.as_nanos() <= other.as_nanos()
    }

    /// This span extended by `other`; `None` when the sum is more than
    /// [`MAX_NANOS`].
    pub fn checked_add(&self, other: &TimeSpan) -> (sum: Option<TimeSpan>)
        ensures
            self@ + other@ <= MAX_NANOS <==> sum.is_some(),
            sum matches Some(s) ==> s@ == self@ + other@ && s.normalized(),
    {
        TimeSpan::from_nanos(self.as_nanos() + other.as_nanos())
    }

    /// This span shortened by `other`; `None` when `other` is the longer one.
    pub fn checked_sub(&self, other: &TimeSpan) -> (difference: Option<TimeSpan>)
        ensures
            other@ <= self@ <==> difference.is_some(),
            difference matches Some(d) ==> d@ == self@ - other@ && d.normalized(),
    {
        let whole: u128 = self.as_nanos();
        let part: u128 = other.as_nanos();
        if part <= whole {
            TimeSpan::from_nanos(whole - part)
        } else {
            None
        }
    }

    /// This span cut into `parts` equal pieces, rounded down to the
    /// nanosecond.
    pub fn divided_by(&self, parts: usize) -> (piece: TimeSpan)
        requires
            parts > 0,
        ensures
            piece@ == self@ / (parts as nat),
            piece.normalized(),
    {
        let whole: u128 = self.as_nanos();
        let share: u128 = whole / (parts as u128);
        assert(share <= whole) by (nonlinear_arith)
            requires
                share == whole / (parts as u128),
                parts > 0,
        ;
        TimeSpan::from_nanos(share).unwrap()
    }
}

#[verifier::external_type_specification]
#[verifier::external_body]
pub struct ExInstant(Instant);

/// Reads the monotonic clock through `Instant::now`.
///
/// Trusted. Two readings may differ, so nothing is claimed of the value.
#[verifier::external_body]
pub(crate) fn now() -> Instant {
    Instant::now()
}

/// The time that has passed since `begin`, from `Instant::elapsed`, as whole
/// seconds and the nanoseconds beyond them.
///
/// Trusted. The only claim is the one std documents for
/// `Duration::subsec_nanos`: the second number is less than one second.
#[verifier::external_body]
pub(crate) fn elapsed_parts(begin: &Instant) -> (parts: (u64, u32))
    ensures
        parts.1 < NANOS_PER_SEC,
{
    let elapsed = begin.elapsed();
    (elapsed.as_secs(), elapsed.subsec_nanos())
}

/// What `Instant::checked_duration_since` gives for the time from `earlier` to
/// `later`, as whole seconds and the nanoseconds beyond them: `None` when
/// `later` is the earlier of the two. It depends on the two instants alone.
pub uninterp spec fn offset_between(earlier: Instant, later: Instant) -> Option<(u64, u32)>;

/// The time from `earlier` to `later` in nanoseconds, where `later` is not
/// the earlier of the two.
pub open spec fn nanos_between(earlier: Instant, later: Instant) -> Option<nat> {
    match offset_between(earlier, later) {
        Some(parts) => Some((parts.0 * 1_000_000_000 + parts.1) as nat),
        None => None,
    }
}

/// The time from `earlier` to `later`, from `Instant::checked_duration_since`,
/// as whole seconds and the nanoseconds beyond them; `None` when `later` is
/// the earlier of the two.
///
/// Trusted. The result is [`offset_between`] of the two instants, which says
/// no more than that the same instants give the same result. Of the numbers
/// it is claimed that the second is less than one second, which std documents
/// for `Duration::subsec_nanos`.
#[verifier::external_body]
pub(crate) fn offset_parts(earlier: &Instant, later: &Instant) -> (parts: Option<(u64, u32)>)
    ensures
        parts == offset_between(*earlier, *later),
        parts matches Some(p) ==> p.1 < NANOS_PER_SEC,
{
    match later.checked_duration_since(*earlier) {
        Some(offset) => Some((offset.as_secs(), offset.subsec_nanos())),
        None => None,
    }
}

/// The time that has passed since `begin`.
pub fn elapsed_since(begin: &Instant) -> (span: TimeSpan)
    ensures
        span.normalized(),
{
    let (secs, nanos) = elapsed_parts(begin);
    TimeSpan::new(secs, nanos).unwrap()
}

/// The time from `earlier` to `later`; `None` when `later` came first.
pub fn span_between(earlier: &Instant, later: &Instant) -> (span: Option<TimeSpan>)
    ensures
        span is Some <==> nanos_between(*earlier, *later) is Some,
        span matches Some(s) ==> s.normalized() && nanos_between(*earlier, *later) == Some(s@),
{
    match offset_parts(earlier, later) {
        Some((secs, nanos)) => TimeSpan::new(secs, nanos),
        None => None,
    }
}

} // verus!
