//! The graceful shutdown path as a state machine driven by its host.
//!
//! The host feeds events (the trigger, the watchdog being armed, the outcome
//! of each window's close request) and performs the action handed back.
use vstd::prelude::*;

use crate::watchdog::{deadline_after, deadline_of, GRACE_PERIOD_MS};

verus! {

/// Where a shutdown stands.
#[derive(Clone, Copy, Debug, PartialEq, Eq, Structural)]
pub enum Phase {
    /// No shutdown has been requested.
    Idle,
    /// A shutdown was requested with `total` windows open; the watchdog is
    /// being armed.
    Arming { total: usize },
    /// The close request for window `index` of `total` is outstanding.
    Closing { index: usize, total: usize },
    /// Cooperative exit has been requested of the runtime.
    Exiting,
}

/// Something the host reports to the coordinator.
#[derive(Clone, Copy, Debug, PartialEq, Eq, Structural)]
pub enum Event {
    /// The user asked to quit at time `now`, with `windows` windows open.
    Trigger { now: u64, windows: usize },
    /// The watchdog thread has been started.
    Armed,
    /// The outstanding close request finished, successfully or not.
    Closed { ok: bool },
}

/// Something the coordinator asks the host to do.
#[derive(Clone, Copy, Debug, PartialEq, Eq, Structural)]
pub enum Action {
    /// Start the watchdog, to abort the process at `deadline`.
    ArmWatchdog { deadline: u64 },
    /// Ask window `index` of the snapshot to close.
    CloseWindow { index: usize },
    /// Ask the runtime for a cooperative exit with success status.
    RequestExit,
    /// Nothing to do.
    Ignore,
}

/// The state of one process's shutdown.
#[derive(Clone, Copy, Debug, PartialEq, Eq, Structural)]
pub struct Coordinator {
    pub phase: Phase,
    /// The grace period granted to the graceful path, in milliseconds.
    pub grace_ms: u64,
    /// When the shutdown was requested (meaningless while idle).
    pub issued_at: u64,
    /// When the watchdog aborts the process (meaningless while idle).
    pub deadline: u64,
    /// Windows whose close request succeeded.
    pub windows_closed: usize,
    /// Windows whose close request failed.
    pub windows_failed: usize,
}

/// The coordinator and the action after `c` receives `e`.
pub open spec fn step_spec(c: Coordinator, e: Event) -> (Coordinator, Action) {
    match (c.phase, e) {
        (Phase::Idle, Event::Trigger { now, windows }) => {
            let d = deadline_of(now, c.grace_ms);
            (
                Coordinator {
                    phase: Phase::Arming { total: windows },
                    issued_at: now,
                    deadline: d,
                    windows_closed: 0,
                    windows_failed: 0,
                    ..c
                },
                Action::ArmWatchdog { deadline: d },
            )
        },
        (Phase::Arming { total }, Event::Armed) => {
            if total == 0 {
                (Coordinator { phase: Phase::Exiting, ..c }, Action::RequestExit)
            } else {
                (
                    Coordinator { phase: Phase::Closing { index: 0, total }, ..c },
                    Action::CloseWindow { index: 0 },
                )
            }
        },
        (Phase::Closing { index, total }, Event::Closed { ok }) => {
            let counted = if ok {
                Coordinator { windows_closed: (c.windows_closed + 1) as usize, ..c }
            } else {
                Coordinator { windows_failed: (c.windows_failed + 1) as usize, ..c }
            };
            if index + 1 < total {
                (
                    Coordinator { phase: Phase::Closing { index: (index + 1) as usize, total }, ..counted },
                    Action::CloseWindow { index: (index + 1) as usize },
                )
            } else {
                (Coordinator { phase: Phase::Exiting, ..counted }, Action::RequestExit)
            }
        },
        _ => (c, Action::Ignore),
    }
}

impl Coordinator {
    /// Well-formed: the windows accounted for are those whose close request
    /// has finished.
    pub open spec fn wf(self) -> bool {
        match self.phase {
            Phase::Idle => true,
            Phase::Arming { total } => self.windows_closed + self.windows_failed == 0,
            Phase::Closing { index, total } => index < total && self.windows_closed
                + self.windows_failed == index,
            Phase::Exiting => true,
        }
    }

    /// The idle coordinator with grace period `grace_ms`.
    pub open spec fn new_spec(grace_ms: u64) -> Coordinator {
        Coordinator {
            phase: Phase::Idle,
            grace_ms,
            issued_at: 0,
            deadline: 0,
            windows_closed: 0,
            windows_failed: 0,
        }
    }

    /// An idle coordinator with the given grace period.
    pub fn new(grace_ms: u64) -> (r: Coordinator)
        ensures
            r == Coordinator::new_spec(grace_ms),
            r.wf(),
    {
        Coordinator {
            phase: Phase::Idle,
            grace_ms,
            issued_at: 0,
            deadline: 0,
            windows_closed: 0,
            windows_failed: 0,
        }
    }

    /// An idle coordinator with the standard grace period.
    pub fn standard() -> (r: Coordinator)
        ensures
            r == Coordinator::new_spec(GRACE_PERIOD_MS),
            r.wf(),
    {
        Coordinator::new(GRACE_PERIOD_MS)
    }

    /// Feeds `e` to the coordinator and returns what the host must do next.
    pub fn step(&mut self, e: Event) -> (r: Action)
        requires
            old(self).wf(),
        ensures
            (*final(self), r) == step_spec(*old(self), e),
            final(self).wf(),
    {
        match (self.phase, e) {
            (Phase::Idle, Event::Trigger { now, windows }) => {
                let d = deadline_after(now, self.grace_ms);
                self.phase = Phase::Arming { total: windows };
                self.issued_at = now;
                self.deadline = d;
                self.windows_closed = 0;
                self.windows_failed = 0;
                Action::ArmWatchdog { deadline: d }
            },
            (Phase::Arming { total }, Event::Armed) => {
                if total == 0 {
                    self.phase = Phase::Exiting;
                    Action::RequestExit
                } else {
                    self.phase = Phase::Closing { index: 0, total };
                    Action::CloseWindow { index: 0 }
                }
            },
            (Phase::Closing { index, total }, Event::Closed { ok }) => {
                if ok {
                    self.windows_closed = self.windows_closed + 1;
                } else {
                    self.windows_failed = self.windows_failed + 1;
                }
                if index + 1 < total {
                    self.phase = Phase::Closing { index: index + 1, total };
                    Action::CloseWindow { index: index + 1 }
                } else {
                    self.phase = Phase::Exiting;
                    Action::RequestExit
                }
            },
            _ => Action::Ignore,
        }
    }
}

} // verus!
