//! A shutdown coordinator for a multi-window GUI host.
//!
//! The graceful path (close every window, then ask the runtime to exit) is a
//! state machine in [`coordinator`]; the forced path is a watchdog in
//! [`watchdog`] whose deadline is fixed when the shutdown is first requested.
use vstd::prelude::*;

pub mod coordinator;
pub mod laws;
pub mod watchdog;

verus! {

} // verus!
