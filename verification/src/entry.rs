//! The fixed-size records that travel through the ring: submission entries
//! (SQEs), written by the driver and read by the kernel, and completion
//! entries (CQEs), written by the kernel and read by the driver.
//!
//! The driver treats an SQE as opaque except that it sets the 64-bit
//! user-data word; the kernel copies that word verbatim into every CQE
//! belonging to the submission.

use vstd::prelude::*;

verus! {

/// The ring operations the driver itself issues or that the deterministic
/// kernel model understands. Handlers pick one per submission.
#[derive(Clone, Copy, Debug, PartialEq, Eq, Structural)]
pub enum OpCode {
    /// Completes with result 0 and no other effect.
    Nop,
    /// An asynchronous timeout. `count` asks the kernel to deliver the
    /// completion only after that many other completions have been observed.
    Timeout { count: u32 },
    /// Cancel every request of this ring that is still in flight.
    CancelAll,
}

/// A submission queue entry: an opcode, the kernel's drain flag, and the
/// 64-bit user-data word that comes back verbatim on the completion.
#[derive(Clone, Copy, Debug, PartialEq, Eq, Structural)]
pub struct SqEntry {
    pub opcode: OpCode,
    /// When set, the kernel delivers this entry's completion only after all
    /// previously submitted entries have completed.
    pub drain: bool,
    pub user_data: u64,
}

/// A completion queue entry: the result code, the MORE flag, and the
/// user-data word of the matching submission.
#[derive(Clone, Copy, Debug, PartialEq, Eq, Structural)]
pub struct Cqe {
    pub user_data: u64,
    pub result: i32,
    /// The kernel's MORE flag: further completions for the same submission
    /// will follow, so this completion is not terminal.
    pub more: bool,
}

impl SqEntry {
    /// The same entry with the user-data word replaced, at the
    /// specification level.
    pub open spec fn spec_with_user_data(self, user_data: u64) -> SqEntry {
        SqEntry { user_data, ..self }
    }

    /// A no-op submission with zero user-data.
    pub fn nop() -> (e: SqEntry)
        ensures
            e == (SqEntry { opcode: OpCode::Nop, drain: false, user_data: 0 }),
    {
        SqEntry { opcode: OpCode::Nop, drain: false, user_data: 0 }
    }

    /// A timeout submission firing after `count` other completions.
    pub fn timeout(count: u32) -> (e: SqEntry)
        ensures
            e == (SqEntry { opcode: OpCode::Timeout { count }, drain: false, user_data: 0 }),
    {
        SqEntry { opcode: OpCode::Timeout { count }, drain: false, user_data: 0 }
    }

    /// A cancel-all submission with zero user-data, so that its own
    /// completion is discarded.
    pub fn cancel_all() -> (e: SqEntry)
        ensures
            e == (SqEntry { opcode: OpCode::CancelAll, drain: false, user_data: 0 }),
    {
        SqEntry { opcode: OpCode::CancelAll, drain: false, user_data: 0 }
    }

    /// The same entry with the user-data word replaced.
    pub fn with_user_data(self, user_data: u64) -> (e: SqEntry)
        ensures
            e == (SqEntry { user_data, ..self }),
    {
        SqEntry { user_data, ..self }
    }

    /// The same entry with the kernel's drain flag set.
    pub fn with_drain(self) -> (e: SqEntry)
        ensures
            e == (SqEntry { drain: true, ..self }),
    {
        SqEntry { drain: true, ..self }
    }
}

} // verus!
