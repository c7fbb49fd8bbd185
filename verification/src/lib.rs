//! A strongly-typed driver for a kernel asynchronous I/O ring: a submission
//! queue (SQ) and a completion queue (CQ) of fixed-size entries, each entry
//! carrying a 64-bit opaque "user data" token.
//!
//! The driver multiplexes a set of operation handlers onto one ring. Typed
//! per-request payloads survive the round trip through the kernel as 64-bit
//! tokens: keys into a slab owned by the ring (`token::TokenTable`). Around
//! that stand a submitter capability with a FIFO backlog for transient
//! SQ-full conditions, an event loop, and an orderly shutdown protocol that
//! cancels in-flight requests and drains their completions behind a barrier.
//!
//! The kernel side is modelled by `kernel::KernelModel`, a deterministic
//! in-process stand-in for the ring facility: it delivers exactly one
//! terminal completion per submitted entry, in submission order.

use vstd::prelude::*;

pub mod entry;
pub mod error;
pub mod kernel;
pub mod log;
pub mod ring;
pub mod squeue;
pub mod submitter;
pub mod token;

pub use entry::{Cqe, OpCode, SqEntry};
pub use error::{ApiError, PushError, RingError};
pub use kernel::{new_raw_ring, KernelModel};
pub use log::EventLog;
pub use ring::{CompletionResult, CqeOutcome, Ring, RingCore, RingOperation, TeardownOutcome};
pub use submitter::SubmissionQueueSubmitter;
pub use token::{Token, TokenTable};

verus! {

/// What a handler asks the event loop to do after one completion was
/// dispatched to it.
#[derive(Debug)]
pub enum ControlFlow<Warn, Error> {
    /// Process the next completion.
    Continue,
    /// Leave the operational loop and begin the shutdown protocol.
    Exit,
    /// Record a warning, then continue with the next completion.
    Warn(Warn),
    /// Record the error, leave the loop and begin the shutdown protocol.
    Error(Error),
}

} // verus!
