//! A model of the ring's submission queue: a bounded buffer of entries that
//! the driver fills and the kernel empties at submit time. A batch either
//! fits as a whole or is refused untouched, which is what the backlog logic
//! builds on.

use vstd::prelude::*;
use crate::entry::SqEntry;
use crate::error::PushError;

verus! {

/// The submission queue. `capacity` is the entry count the ring was built
/// with; a push never grows the queue past it.
pub struct SubmissionQueue {
    entries: Vec<SqEntry>,
    capacity: usize,
}

impl View for SubmissionQueue {
    type V = Seq<SqEntry>;

    closed spec fn view(&self) -> Seq<SqEntry> {
        self.entries@
    }
}

impl SubmissionQueue {
    /// The entry count the queue was built with.
    pub closed spec fn cap(self) -> int {
        self.capacity as int
    }

    /// Whether a batch of `n` more entries fits right now.
    pub open spec fn fits(self, n: int) -> bool {
        self@.len() + n <= self.cap()
    }

    pub fn new(capacity: usize) -> (q: Self)
        ensures
            q@ == Seq::<SqEntry>::empty(),
            q.cap() == capacity,
    {
        SubmissionQueue { entries: Vec::new(), capacity }
    }

    pub fn len(&self) -> (n: usize)
        ensures
            n == self@.len(),
    {
        self.entries.len()
    }

    pub fn capacity(&self) -> (n: usize)
        ensures
            n == self.cap(),
    {
        self.capacity
    }

    /// Append the whole batch, or refuse it untouched when it does not fit.
    pub fn push_multiple(&mut self, batch: &Vec<SqEntry>) -> (r: Result<(), PushError>)
        ensures
            r is Ok <==> old(self).fits(batch@.len() as int),
            r is Ok ==> final(self)@ == old(self)@ + batch@,
            r is Err ==> final(self)@ == old(self)@,
            final(self).cap() == old(self).cap(),
    {
        if batch.len() <= self.capacity && self.entries.len() <= self.capacity - batch.len() {
            let mut i: usize = 0;
            while i < batch.len()
                invariant
                    i <= batch@.len(),
                    self.entries@ == old(self).entries@ + batch@.take(i as int),
                    self.capacity == old(self).capacity,
                decreases batch@.len() - i,
            {
                self.entries.push(batch[i]);
                proof {
                    assert(batch@.take(i + 1) =~= batch@.take(i as int).push(batch@[i as int]));
                }
                i = i + 1;
            }
            proof {
                assert(batch@.take(batch@.len() as int) =~= batch@);
            }
            Ok(())
        } else {
            Err(PushError)
        }
    }

    /// Append one entry, or refuse it when the queue is full.
    pub fn push(&mut self, entry: SqEntry) -> (r: Result<(), PushError>)
        ensures
            r is Ok <==> old(self).fits(1),
            r is Ok ==> final(self)@ == old(self)@.push(entry),
            r is Err ==> final(self)@ == old(self)@,
            final(self).cap() == old(self).cap(),
    {
        let batch = vec![entry];
        let r = self.push_multiple(&batch);
        proof {
            if old(self).fits(1) {
                assert(self@ =~= old(self)@.push(entry));
            }
        }
        r
    }

    /// Hand every queued entry over, in order, leaving the queue empty.
    /// This is what the kernel consumes at submit time.
    pub fn take_all(&mut self) -> (batch: Vec<SqEntry>)
        ensures
            batch@ == old(self)@,
            final(self)@ == Seq::<SqEntry>::empty(),
            final(self).cap() == old(self).cap(),
    {
        let mut out: Vec<SqEntry> = Vec::new();
        core::mem::swap(&mut out, &mut self.entries);
        out
    }
}

} // verus!
