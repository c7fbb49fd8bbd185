//! The error values that the driver surfaces.

use vstd::prelude::*;

verus! {

/// A submission could not be queued: the submission queue was full and the
/// backlog was capped and would overflow, or a driver-side counter or table
/// reached its machine limit.
#[derive(Clone, Copy, Debug, PartialEq, Eq, Structural)]
pub struct PushError;

/// A failure of the underlying ring facility itself, as the deterministic
/// kernel model reports it.
#[derive(Clone, Copy, Debug, PartialEq, Eq, Structural)]
pub enum ApiError {
    /// The requested ring size is not a strictly positive power of two.
    InvalidRingSize,
    /// Waiting for a completion would block forever: nothing is in flight
    /// and nothing is queued for submission.
    WouldStall,
    /// A completion carried a user-data word that no live token of this
    /// ring explains, or a control token arrived in the wrong phase.
    ProtocolViolation,
    /// The driver's submit-wait cycle budget ran out. The budget is the
    /// full range of a 64-bit counter, so this is out of reach in
    /// practice; it bounds the loop instead of letting it run without end.
    Exhausted,
}

/// Everything `run` can return. `S`, `C` and `T` are the handler set's
/// setup, completion and teardown error types.
#[derive(Debug)]
pub enum RingError<S, C, T> {
    /// A handler's `setup` failed; the ring was not started.
    Setup(S),
    /// A handler answered a completion with `ControlFlow::Error`; the loop
    /// stopped and the shutdown protocol ran before this was returned.
    Completion(C),
    /// A handler's `on_teardown_completion` failed; the drain continued and
    /// this was returned only if no earlier error was recorded.
    Teardown(T),
    /// The underlying ring facility failed.
    Api(ApiError),
    /// The shutdown coordinator could not queue its cancel or barrier entry.
    Push(PushError),
}

} // verus!
