//! A deterministic model of the kernel ring facility.
//!
//! The model owes exactly one terminal completion for every submitted entry
//! and delivers completions strictly in submission order, each carrying the
//! submission's user-data word verbatim, with the MORE flag clear and
//! result 0. Under first-in-first-out delivery the drain flag's contract —
//! the flagged entry completes only after everything submitted before it —
//! holds of its own accord, and a counted timeout fires no later than the
//! wait in which it is drained. Waiting when nothing is queued and nothing
//! is owed would block forever; the model reports that as an error where
//! the real facility would stall.

use vstd::prelude::*;
use crate::entry::{Cqe, SqEntry};
use crate::error::ApiError;

verus! {

/// The completion the model owes for a submitted entry: user-data verbatim,
/// result 0, terminal.
pub open spec fn completion_of(e: SqEntry) -> Cqe {
    Cqe { user_data: e.user_data, result: 0, more: false }
}

/// The completions owed for a batch, in submission order.
pub open spec fn completions_of(s: Seq<SqEntry>) -> Seq<Cqe> {
    s.map_values(|e: SqEntry| completion_of(e))
}

/// A ring size the facility accepts: a strictly positive power of two.
pub open spec fn is_valid_ring_size(n: u32) -> bool {
    n != 0 && (n & ((n - 1) as u32)) == 0
}

/// The kernel side of the ring: entries submitted and not yet completed,
/// and the completion queue the driver reads.
pub struct KernelModel {
    sq_capacity: u32,
    pending: Vec<SqEntry>,
    cq: Vec<Cqe>,
}

impl KernelModel {
    /// Submitted entries whose completions have not been delivered yet, in
    /// submission order.
    pub closed spec fn pending_view(self) -> Seq<SqEntry> {
        self.pending@
    }

    /// Completions delivered and not yet read by the driver, oldest first.
    pub closed spec fn cq_view(self) -> Seq<Cqe> {
        self.cq@
    }

    /// The submission queue size the ring was built with.
    pub closed spec fn sq_capacity_spec(self) -> u32 {
        self.sq_capacity
    }

    /// The submission queue size the ring was built with.
    pub fn sq_capacity(&self) -> (n: u32)
        ensures
            n == self.sq_capacity_spec(),
    {
        self.sq_capacity
    }

    /// Accept a batch of submitted entries, in order, behind everything
    /// already pending.
    pub fn submit(&mut self, batch: Vec<SqEntry>)
        ensures
            final(self).pending_view() == old(self).pending_view() + batch@,
            final(self).cq_view() == old(self).cq_view(),
            final(self).sq_capacity_spec() == old(self).sq_capacity_spec(),
    {
        let mut rest = batch;
        self.pending.append(&mut rest);
    }

    /// Wait until at least one completion is available, delivering every
    /// owed completion in submission order: exactly one terminal completion
    /// per pending entry, user-data verbatim. Fails when nothing is pending
    /// and nothing is unread — the real facility would block forever.
    pub fn wait_for_completions(&mut self) -> (r: Result<(), ApiError>)
        ensures
            r is Ok <==> old(self).pending_view().len() + old(self).cq_view().len() > 0,
            r is Ok ==> final(self).cq_view() == old(self).cq_view() + completions_of(
                old(self).pending_view(),
            ),
            r is Ok ==> final(self).pending_view() == Seq::<SqEntry>::empty(),
            r is Err ==> *final(self) == *old(self) && r == Err::<(), ApiError>(
                ApiError::WouldStall,
            ),
            final(self).sq_capacity_spec() == old(self).sq_capacity_spec(),
    {
        if self.pending.len() == 0 && self.cq.len() == 0 {
            return Err(ApiError::WouldStall);
        }
        let mut i: usize = 0;
        while i < self.pending.len()
            invariant
                i <= self.pending@.len(),
                self.pending@ == old(self).pending@,
                self.sq_capacity == old(self).sq_capacity,
                self.cq@ == old(self).cq@ + completions_of(self.pending@.take(i as int)),
            decreases self.pending@.len() - i,
        {
            let e = self.pending[i];
            self.cq.push(Cqe { user_data: e.user_data, result: 0, more: false });
            proof {
                assert(completions_of(self.pending@.take(i + 1)) =~= completions_of(
                    self.pending@.take(i as int),
                ).push(completion_of(self.pending@[i as int])));
            }
            i = i + 1;
        }
        proof {
            assert(self.pending@.take(self.pending@.len() as int) =~= self.pending@);
        }
        self.pending.clear();
        Ok(())
    }

    /// Read the oldest unread completion, if any.
    pub fn pop_cqe(&mut self) -> (r: Option<Cqe>)
        ensures
            match r {
                Some(c) => {
                    &&& old(self).cq_view().len() > 0
                    &&& c == old(self).cq_view()[0]
                    &&& final(self).cq_view() == old(self).cq_view().subrange(
                        1,
                        old(self).cq_view().len() as int,
                    )
                },
                None => {
                    &&& old(self).cq_view().len() == 0
                    &&& *final(self) == *old(self)
                },
            },
            final(self).pending_view() == old(self).pending_view(),
            final(self).sq_capacity_spec() == old(self).sq_capacity_spec(),
    {
        if self.cq.len() == 0 {
            None
        } else {
            let c = self.cq.remove(0);
            Some(c)
        }
    }
}

/// Build the underlying ring facility. The size must be a strictly
/// positive power-of-two entry count, as the kernel demands.
pub fn new_raw_ring(ring_size: u32) -> (r: Result<KernelModel, ApiError>)
    ensures
        match r {
            Ok(k) => {
                &&& is_valid_ring_size(ring_size)
                &&& k.sq_capacity_spec() == ring_size
                &&& k.pending_view() == Seq::<SqEntry>::empty()
                &&& k.cq_view() == Seq::<Cqe>::empty()
            },
            Err(e) => !is_valid_ring_size(ring_size) && e == ApiError::InvalidRingSize,
        },
{
    if ring_size != 0 && (ring_size & (ring_size - 1)) == 0 {
        Ok(KernelModel { sq_capacity: ring_size, pending: Vec::new(), cq: Vec::new() })
    } else {
        Err(ApiError::InvalidRingSize)
    }
}

} // verus!
