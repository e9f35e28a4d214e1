//! The ways a sleep cycle can break its protocol.

use vstd::prelude::*;

verus! {

/// A fatal fault. None of these is retried: each means that the handshake
/// between sleeper and waker can no longer be trusted.
#[derive(Clone, Copy, Debug, PartialEq, Eq, Structural)]
pub enum Fault {
    /// The other end of a transport is gone.
    Disconnected,
    /// The lock around the shared wake state was poisoned by a panic.
    Poisoned,
    /// The sleeper woke before its deadline although nobody had woken it.
    SpuriousWake,
    /// The wake flag was set, but no wake instant was stored with it.
    MissingWakeInstant,
    /// The wake was recorded before the sleep it interrupted had begun.
    WakeBeforeSleep,
    /// The sleep was shorter than it should have been at the least.
    NegativeDelay,
    /// A cycle ended for another reason than the one the driver had planned.
    UnexpectedReason,
    /// The partner did not reach the barrier within the spin budget.
    Stalled,
}

impl Fault {
    /// The sentence that names the broken rule.
    pub open spec fn text(self) -> Seq<char> {
        match self {
            Fault::Disconnected => "Channel disconnected"@,
            Fault::Poisoned => "Shared wake state was poisoned"@,
            Fault::SpuriousWake => "We woke up too early"@,
            Fault::MissingWakeInstant => "Wake instant should have been set by wake()"@,
            Fault::WakeBeforeSleep => "Wake was recorded before the sleep began"@,
            Fault::NegativeDelay => "Sleep ended before it was expected to"@,
            Fault::UnexpectedReason => "Sleep ended for an unplanned reason"@,
            Fault::Stalled => "Partner did not reach the barrier"@,
        }
    }

    /// The sentence that names the broken rule, for a diagnostic.
    pub fn describe(&self) -> (message: &'static str)
        ensures
            message@ == self.text(),
    {
        match self {
            Fault::Disconnected => "Channel disconnected",
            Fault::Poisoned => "Shared wake state was poisoned",
            Fault::SpuriousWake => "We woke up too early",
            Fault::MissingWakeInstant => "Wake instant should have been set by wake()",
            Fault::WakeBeforeSleep => "Wake was recorded before the sleep began",
            Fault::NegativeDelay => "Sleep ended before it was expected to",
            Fault::UnexpectedReason => "Sleep ended for an unplanned reason",
            Fault::Stalled => "Partner did not reach the barrier",
        }
    }
}

} // verus!
