//! The watchdog that guarantees termination once a shutdown was requested.
use vstd::prelude::*;

verus! {

/// The grace period, in milliseconds, granted to the graceful path.
pub const GRACE_PERIOD_MS: u64 = 200;

/// The deadline for a shutdown issued at `issued_at` with grace period
/// `grace`: their sum, held at the largest time that can be represented.
pub open spec fn deadline_of(issued_at: u64, grace: u64) -> u64 {
    if issued_at as int + grace as int > u64::MAX as int {
        u64::MAX
    } else {
        (issued_at + grace) as u64
    }
}

/// What the watchdog does when it wakes up.
#[derive(Clone, Copy, Debug, PartialEq, Eq, Structural)]
pub enum WatchdogStep {
    /// Sleep this many more milliseconds, then look again.
    Wait { ms: u64 },
    /// Terminate the process unconditionally.
    Abort,
}

/// The watchdog's decision at time `now`: abort exactly when the deadline
/// has come, else sleep until it.
pub open spec fn watchdog_step_spec(deadline: u64, now: u64) -> WatchdogStep {
    if now >= deadline {
        WatchdogStep::Abort
    } else {
        WatchdogStep::Wait { ms: (deadline - now) as u64 }
    }
}

/// Computes the deadline of a shutdown issued at `issued_at`.
pub fn deadline_after(issued_at: u64, grace: u64) -> (r: u64)
    ensures
        r == deadline_of(issued_at, grace),
{
    issued_at.saturating_add(grace)
}

/// Decides, at time `now`, whether the watchdog armed for `deadline` aborts
/// the process or sleeps on.
pub fn watchdog_step(deadline: u64, now: u64) -> (r: WatchdogStep)
    ensures
        r == watchdog_step_spec(deadline, now),
{
    if now >= deadline {
        WatchdogStep::Abort
    } else {
        WatchdogStep::Wait { ms: deadline - now }
    }
}

} // verus!
