//! The ring's observable side channel: counters for the structured events
//! the driver emits. Logging proper is an external collaborator; the
//! verified core only counts what it would have said.

use vstd::prelude::*;

verus! {

/// A counter bumped by one, sticking at its ceiling instead of wrapping.
pub open spec fn bumped(c: u64) -> u64 {
    if c == u64::MAX {
        c
    } else {
        (c + 1) as u64
    }
}

/// Counts of the warning- and error-level events a run emitted.
#[derive(Clone, Copy, Debug, PartialEq, Eq, Structural, Default)]
pub struct EventLog {
    /// Warn-level: a batch spilled from the full submission queue into the
    /// backlog. One event per spilled batch.
    pub spill_warns: u64,
    /// Warn-level: a handler answered a completion with `ControlFlow::Warn`.
    pub flow_warns: u64,
    /// Error-level: a handler's `on_teardown_completion` failed.
    pub teardown_failures: u64,
}

} // verus!
