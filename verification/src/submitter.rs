//! The submitter capability handed to handlers: `push` variants that tag an
//! entry's user-data with a freshly allocated token of the current handler
//! slot and enqueue the entry into the submission queue, spilling whole
//! batches into the FIFO backlog when the queue is full, and maintaining
//! the in-flight counter.
//!
//! A batch is atomic: either every entry enters the submission queue, or
//! the whole batch becomes one backlog element, or the push is refused with
//! nothing changed. The in-flight counter grows only when entries enter the
//! submission queue — a spilled batch is counted later, when the drain
//! moves it.

use vstd::prelude::*;
use std::collections::VecDeque;
use crate::entry::SqEntry;
use crate::error::PushError;
use crate::log::bumped;
use crate::squeue::SubmissionQueue;
use crate::token::{Token, TokenTable};

verus! {

broadcast use vstd::seq::group_seq_axioms, vstd::seq_lib::group_seq_properties;

/// A batch tagged with consecutive token keys counting up from
/// `first_key`: entry `i` carries user-data `first_key + i`.
pub open spec fn tagged_batch(entries: Seq<SqEntry>, first_key: int) -> Seq<SqEntry> {
    entries.map(|i: int, e: SqEntry| SqEntry { user_data: (first_key + i) as u64, ..e })
}

/// The entries of a sequence of batches, batch by batch in order: what the
/// backlog feeds into the submission queue when it drains.
pub open spec fn flat_batches(s: Seq<Seq<SqEntry>>) -> Seq<SqEntry>
    decreases s.len(),
{
    if s.len() == 0 {
        Seq::<SqEntry>::empty()
    } else {
        flat_batches(s.drop_last()) + s.last()
    }
}

/// The flattened batches split at any boundary: every entry of every
/// earlier batch precedes every entry of every later batch. This is the
/// backlog's order guarantee in one statement: enqueue order is entry
/// order.
pub proof fn lemma_flat_batches_split(s: Seq<Seq<SqEntry>>, j: int)
    requires
        0 <= j <= s.len(),
    ensures
        flat_batches(s) == flat_batches(s.take(j)) + flat_batches(s.skip(j)),
    decreases s.len(),
{
    if j == s.len() {
        assert(s.take(j) =~= s);
        assert(s.skip(j) =~= Seq::<Seq<SqEntry>>::empty());
        assert(flat_batches(s) + flat_batches(s.skip(j)) =~= flat_batches(s));
    } else {
        let d = s.drop_last();
        lemma_flat_batches_split(d, j);
        assert(s.take(j) =~= d.take(j));
        assert(s.skip(j).drop_last() =~= d.skip(j));
        assert(s.skip(j).last() == s.last());
        assert(flat_batches(s.skip(j)) == flat_batches(d.skip(j)) + s.last());
        assert(flat_batches(s) == flat_batches(d) + s.last());
        assert(flat_batches(d.take(j)) + (flat_batches(d.skip(j)) + s.last()) =~= (flat_batches(
            d.take(j),
        ) + flat_batches(d.skip(j))) + s.last());
    }
}

/// Backlog drain is order-preserving across batches: when two batches
/// drain, every entry of the first enters the submission queue before any
/// entry of the second.
pub proof fn lemma_flat_batches_ordered(b1: Seq<SqEntry>, b2: Seq<SqEntry>)
    ensures
        flat_batches(seq![b1, b2]) == b1 + b2,
{
    assert(seq![b1, b2].drop_last() =~= seq![b1]);
    assert(seq![b1].drop_last() =~= Seq::<Seq<SqEntry>>::empty());
    assert(flat_batches(seq![b1]) == flat_batches(seq![b1].drop_last()) + seq![b1].last());
    assert(flat_batches(seq![b1]) =~= b1);
    assert(flat_batches(seq![b1, b2]) == flat_batches(seq![b1, b2].drop_last()) + seq![
        b1,
        b2,
    ].last());
}

/// The in-flight counter after one completion is accounted: unchanged
/// under the MORE flag, otherwise one less, never below zero.
pub open spec fn after_completion(x: u64, more: bool) -> u64 {
    if more {
        x
    } else if x > 0 {
        (x - 1) as u64
    } else {
        0u64
    }
}

/// The submitter: the submission queue, the backlog with its optional cap,
/// the token table, the in-flight counter and the spill-warning counter,
/// bound to the handler slot whose callback currently runs.
pub struct SubmissionQueueSubmitter<D> {
    sq: SubmissionQueue,
    backlog: VecDeque<Vec<SqEntry>>,
    limit: Option<usize>,
    table: TokenTable<D>,
    inflight: u64,
    slot: usize,
    spill_warns: u64,
}

impl<D> SubmissionQueueSubmitter<D> {
    /// The submission queue's entries, oldest first.
    pub closed spec fn sq_view(self) -> Seq<SqEntry> {
        self.sq@
    }

    /// The submission queue's capacity.
    pub closed spec fn sq_cap(self) -> int {
        self.sq.cap()
    }

    /// The backlog's batches, oldest first.
    pub closed spec fn backlog_view(self) -> Seq<Seq<SqEntry>> {
        self.backlog@.map_values(|v: Vec<SqEntry>| v@)
    }

    /// The backlog cap, if any.
    pub closed spec fn limit_spec(self) -> Option<usize> {
        self.limit
    }

    /// The token table.
    pub closed spec fn tokens(self) -> TokenTable<D> {
        self.table
    }

    /// The in-flight counter: terminal completions still owed by the
    /// kernel for entries that entered the submission queue.
    pub closed spec fn inflight_spec(self) -> u64 {
        self.inflight
    }

    /// The handler slot this submitter currently tags for.
    pub closed spec fn slot_spec(self) -> usize {
        self.slot
    }

    /// Warn-level events counted so far: batches spilled from the full
    /// submission queue into the backlog, one per spilled batch.
    pub closed spec fn spill_warns_spec(self) -> u64 {
        self.spill_warns
    }

    /// Whether a batch of `n` entries fits in the submission queue now.
    pub open spec fn batch_fits(self, n: int) -> bool {
        self.sq_view().len() + n <= self.sq_cap()
    }

    /// Whether the backlog takes one more batch of `n` entries: always when
    /// uncapped, under a cap only while the cap is respected.
    pub open spec fn backlog_accepts(self, n: int) -> bool {
        match self.limit_spec() {
            None => true,
            Some(l) => self.backlog_view().len() + n <= l,
        }
    }

    /// Whether the in-flight counter has room for `n` more entries.
    pub open spec fn counter_fits(self, n: int) -> bool {
        self.inflight_spec() + n <= u64::MAX
    }

    /// Everything a push never touches: the slot binding, the backlog cap,
    /// the queue capacity, and the counters it does not own.
    pub open spec fn push_frame(self, post: Self) -> bool {
        &&& post.slot_spec() == self.slot_spec()
        &&& post.limit_spec() == self.limit_spec()
        &&& post.sq_cap() == self.sq_cap()
    }

    /// The parts of the submitter a slot re-binding leaves alone.
    pub open spec fn eq_except_slot(self, post: Self) -> bool {
        &&& post.sq_view() == self.sq_view()
        &&& post.sq_cap() == self.sq_cap()
        &&& post.backlog_view() == self.backlog_view()
        &&& post.limit_spec() == self.limit_spec()
        &&& post.tokens() == self.tokens()
        &&& post.inflight_spec() == self.inflight_spec()
        &&& post.spill_warns_spec() == self.spill_warns_spec()
    }

    /// The parts of the submitter untouched when only the submission queue
    /// contents change.
    pub open spec fn eq_except_sq(self, post: Self) -> bool {
        &&& post.sq_cap() == self.sq_cap()
        &&& post.backlog_view() == self.backlog_view()
        &&& post.limit_spec() == self.limit_spec()
        &&& post.tokens() == self.tokens()
        &&& post.slot_spec() == self.slot_spec()
        &&& post.inflight_spec() == self.inflight_spec()
        &&& post.spill_warns_spec() == self.spill_warns_spec()
    }

    /// The parts of the submitter untouched when only the token table
    /// changes.
    pub open spec fn eq_except_tokens(self, post: Self) -> bool {
        &&& post.sq_view() == self.sq_view()
        &&& post.sq_cap() == self.sq_cap()
        &&& post.backlog_view() == self.backlog_view()
        &&& post.limit_spec() == self.limit_spec()
        &&& post.slot_spec() == self.slot_spec()
        &&& post.inflight_spec() == self.inflight_spec()
        &&& post.spill_warns_spec() == self.spill_warns_spec()
    }

    /// The parts of the submitter untouched when only the backlog changes.
    pub open spec fn eq_except_backlog(self, post: Self) -> bool {
        &&& post.sq_view() == self.sq_view()
        &&& post.sq_cap() == self.sq_cap()
        &&& post.limit_spec() == self.limit_spec()
        &&& post.tokens() == self.tokens()
        &&& post.slot_spec() == self.slot_spec()
        &&& post.inflight_spec() == self.inflight_spec()
        &&& post.spill_warns_spec() == self.spill_warns_spec()
    }

    /// The parts of the submitter untouched when only the in-flight
    /// counter changes.
    pub open spec fn eq_except_inflight(self, post: Self) -> bool {
        &&& post.sq_view() == self.sq_view()
        &&& post.sq_cap() == self.sq_cap()
        &&& post.backlog_view() == self.backlog_view()
        &&& post.limit_spec() == self.limit_spec()
        &&& post.tokens() == self.tokens()
        &&& post.slot_spec() == self.slot_spec()
        &&& post.spill_warns_spec() == self.spill_warns_spec()
    }

    /// The parts of the submitter untouched when a completion is merely
    /// accounted and its token consumed: everything but the in-flight
    /// counter and the token table.
    pub open spec fn eq_except_completion(self, post: Self) -> bool {
        &&& post.sq_view() == self.sq_view()
        &&& post.sq_cap() == self.sq_cap()
        &&& post.backlog_view() == self.backlog_view()
        &&& post.limit_spec() == self.limit_spec()
        &&& post.slot_spec() == self.slot_spec()
        &&& post.spill_warns_spec() == self.spill_warns_spec()
    }

    /// The parts of the submitter untouched when the queue and the counter
    /// move together, as in a control push.
    pub open spec fn eq_except_sq_inflight(self, post: Self) -> bool {
        &&& post.sq_cap() == self.sq_cap()
        &&& post.backlog_view() == self.backlog_view()
        &&& post.limit_spec() == self.limit_spec()
        &&& post.tokens() == self.tokens()
        &&& post.slot_spec() == self.slot_spec()
        &&& post.spill_warns_spec() == self.spill_warns_spec()
    }

    /// A fresh submitter around an empty backlog, an empty token table and
    /// a zero in-flight counter, bound to slot 0 until the loop re-binds
    /// it.
    pub fn new(sq: SubmissionQueue, backlog_limit: Option<usize>) -> (s: Self)
        ensures
            s.sq_view() == sq@,
            s.sq_cap() == sq.cap(),
            s.backlog_view() == Seq::<Seq<SqEntry>>::empty(),
            s.limit_spec() == backlog_limit,
            s.tokens().is_clear(),
            s.tokens().next_key() == 1,
            s.inflight_spec() == 0,
            s.slot_spec() == 0,
            s.spill_warns_spec() == 0,
    {
        let s = SubmissionQueueSubmitter {
            sq,
            backlog: VecDeque::new(),
            limit: backlog_limit,
            table: TokenTable::new(),
            inflight: 0,
            slot: 0,
            spill_warns: 0,
        };
        proof {
            assert(s.backlog_view() =~= Seq::<Seq<SqEntry>>::empty());
        }
        s
    }

    /// The in-flight counter.
    pub fn inflight(&self) -> (n: u64)
        ensures
            n == self.inflight_spec(),
    {
        self.inflight
    }

    /// The number of spill warnings counted so far.
    pub fn spill_warns(&self) -> (n: u64)
        ensures
            n == self.spill_warns_spec(),
    {
        self.spill_warns
    }

    /// The number of batches waiting in the backlog.
    pub fn backlog_len(&self) -> (n: usize)
        ensures
            n == self.backlog_view().len(),
    {
        self.backlog.len()
    }

    /// Enqueue a batch whose entries already carry valid user-data: either
    /// zero, meaning drop-on-completion, or a token of this ring. The whole
    /// batch enters the submission queue, or spills as one backlog element
    /// (without touching the in-flight counter, and with one warning
    /// counted), or is refused untouched.
    pub fn push_multiple_raw(&mut self, entries: Vec<SqEntry>) -> (r: Result<(), PushError>)
        ensures
            old(self).push_frame(*final(self)),
            final(self).tokens() == old(self).tokens(),
            entries@.len() == 0 ==> r is Ok && *final(self) == *old(self),
            entries@.len() > 0 ==> (if old(self).batch_fits(entries@.len() as int) {
                if old(self).counter_fits(entries@.len() as int) {
                    &&& r is Ok
                    &&& final(self).sq_view() == old(self).sq_view() + entries@
                    &&& final(self).backlog_view() == old(self).backlog_view()
                    &&& final(self).inflight_spec() == old(self).inflight_spec() + entries@.len()
                    &&& final(self).spill_warns_spec() == old(self).spill_warns_spec()
                } else {
                    &&& r is Err
                    &&& *final(self) == *old(self)
                }
            } else if old(self).backlog_accepts(entries@.len() as int) {
                &&& r is Ok
                &&& final(self).sq_view() == old(self).sq_view()
                &&& final(self).backlog_view() == old(self).backlog_view().push(entries@)
                &&& final(self).inflight_spec() == old(self).inflight_spec()
                &&& final(self).spill_warns_spec() == bumped(old(self).spill_warns_spec())
            } else {
                &&& r is Err
                &&& *final(self) == *old(self)
            }),
    {
        let n = entries.len();
        if n == 0 {
            return Ok(());
        }
        let n64 = n as u64;
        let cap = self.sq.capacity();
        let len = self.sq.len();
        if n <= cap && len <= cap - n {
            if self.inflight <= u64::MAX - n64 {
                let r = self.sq.push_multiple(&entries);
                proof {
                    assert(r is Ok);
                }
                self.inflight = self.inflight + n64;
                Ok(())
            } else {
                Err(PushError)
            }
        } else {
            let accepts = match self.limit {
                None => true,
                Some(l) => n <= l && self.backlog.len() <= l - n,
            };
            if accepts {
                proof {
                    let f = |v: Vec<SqEntry>| v@;
                    assert(old(self).backlog@.push(entries).map_values(f) =~= old(
                        self,
                    ).backlog@.map_values(f).push(entries@));
                }
                self.backlog.push_back(entries);
                if self.spill_warns < u64::MAX {
                    self.spill_warns = self.spill_warns + 1;
                }
                Ok(())
            } else {
                Err(PushError)
            }
        }
    }

    /// Enqueue one entry that already carries valid user-data.
    pub fn push_raw(&mut self, entry: SqEntry) -> (r: Result<(), PushError>)
        ensures
            old(self).push_frame(*final(self)),
            final(self).tokens() == old(self).tokens(),
            r is Ok <==> old(self).batch_fits(1) && old(self).counter_fits(1) || !old(
                self,
            ).batch_fits(1) && old(self).backlog_accepts(1),
            r is Err ==> *final(self) == *old(self),
            r is Ok ==> (if old(self).batch_fits(1) {
                &&& final(self).sq_view() == old(self).sq_view().push(entry)
                &&& final(self).backlog_view() == old(self).backlog_view()
                &&& final(self).inflight_spec() == old(self).inflight_spec() + 1
                &&& final(self).spill_warns_spec() == old(self).spill_warns_spec()
            } else {
                &&& final(self).sq_view() == old(self).sq_view()
                &&& final(self).backlog_view() == old(self).backlog_view().push(seq![entry])
                &&& final(self).inflight_spec() == old(self).inflight_spec()
                &&& final(self).spill_warns_spec() == bumped(old(self).spill_warns_spec())
            }),
    {
        let batch = vec![entry];
        proof {
            assert(batch@ =~= seq![entry]);
        }
        let r = self.push_multiple_raw(batch);
        proof {
            if old(self).batch_fits(1) && old(self).counter_fits(1) {
                assert(old(self).sq_view() + seq![entry] =~= old(self).sq_view().push(entry));
            }
        }
        r
    }

    /// Tag every entry of the batch with a fresh token of the current slot
    /// — entry `i` carries payload `data[i]` — and enqueue the whole batch:
    /// into the submission queue, or as one backlog element, or refused
    /// untouched. Refused also when the two vectors disagree in length or
    /// the token key space cannot cover the batch.
    pub fn push_multiple(&mut self, entries: Vec<SqEntry>, data: Vec<D>) -> (r: Result<
        (),
        PushError,
    >)
        ensures
            old(self).push_frame(*final(self)),
            r is Err ==> *final(self) == *old(self),
            r is Ok <==> entries@.len() == data@.len() && (entries@.len() == 0 || {
                let n = entries@.len() as int;
                &&& old(self).tokens().can_allocate(n)
                &&& (old(self).batch_fits(n) && old(self).counter_fits(n) || !old(self).batch_fits(
                    n,
                ) && old(self).backlog_accepts(n))
            }),
            entries@.len() == 0 && r is Ok ==> *final(self) == *old(self),
            r is Ok && entries@.len() > 0 ==> {
                let n = entries@.len() as int;
                let k0 = old(self).tokens().next_key();
                &&& (forall|i: int|
                    0 <= i < n ==> final(self).tokens().spec_get(((k0 + i) as u64)) == Some(
                        Token::Op { slot: old(self).slot_spec(), data: data@[i] },
                    ))
                &&& (forall|k: u64|
                    k < k0 || k >= k0 + n ==> final(self).tokens().spec_get(k) == old(
                        self,
                    ).tokens().spec_get(k))
                &&& final(self).tokens().next_key() == k0 + n
                &&& (if old(self).batch_fits(n) {
                    &&& final(self).sq_view() == old(self).sq_view() + tagged_batch(entries@, k0)
                    &&& final(self).backlog_view() == old(self).backlog_view()
                    &&& final(self).inflight_spec() == old(self).inflight_spec() + n
                    &&& final(self).spill_warns_spec() == old(self).spill_warns_spec()
                } else {
                    &&& final(self).sq_view() == old(self).sq_view()
                    &&& final(self).backlog_view() == old(self).backlog_view().push(
                        tagged_batch(entries@, k0),
                    )
                    &&& final(self).inflight_spec() == old(self).inflight_spec()
                    &&& final(self).spill_warns_spec() == bumped(old(self).spill_warns_spec())
                })
            },
    {
        if entries.len() != data.len() {
            return Err(PushError);
        }
        let n = entries.len();
        if n == 0 {
            return Ok(());
        }
        let n64 = n as u64;
        let cap = self.sq.capacity();
        let len = self.sq.len();
        let fits = n <= cap && len <= cap - n;
        let accepted = if fits {
            self.inflight <= u64::MAX - n64
        } else {
            match self.limit {
                None => true,
                Some(l) => n <= l && self.backlog.len() <= l - n,
            }
        };
        if !accepted {
            return Err(PushError);
        }
        if !self.table.can_allocate_many(n64) {
            return Err(PushError);
        }
        let ghost k0 = self.table.next_key();
        let ghost data0 = data@;
        let mut tagged: Vec<SqEntry> = Vec::new();
        let mut rest = data;
        let mut i: usize = 0;
        while i < entries.len()
            invariant
                i <= entries@.len(),
                entries@.len() == n,
                n64 == n,
                rest@ == data0.skip(i as int),
                data0.len() == n,
                tagged@ == tagged_batch(entries@.take(i as int), k0),
                self.table.next_key() == k0 + i,
                self.table.can_allocate(n - i),
                forall|j: int|
                    0 <= j < i ==> self.table.spec_get(((k0 + j) as u64)) == Some(
                        Token::Op { slot: old(self).slot, data: data0[j] },
                    ),
                forall|k: u64|
                    k < k0 || k >= k0 + i ==> self.table.spec_get(k) == old(self).table.spec_get(
                        k,
                    ),
                self.sq == old(self).sq,
                self.backlog == old(self).backlog,
                self.limit == old(self).limit,
                self.inflight == old(self).inflight,
                self.slot == old(self).slot,
                self.spill_warns == old(self).spill_warns,
            decreases entries@.len() - i,
        {
            let d = rest.remove(0);
            proof {
                assert(d == data0[i as int]);
                assert(rest@ =~= data0.skip(i + 1));
            }
            let k = match self.table.encode(Token::Op { slot: self.slot, data: d }) {
                Some(k) => k,
                None => {
                    proof {
                        self.table.lemma_can_allocate_mono(1, n - i);
                        assert(false);
                    }
                    return Err(PushError);
                },
            };
            let e = entries[i].with_user_data(k);
            tagged.push(e);
            proof {
                assert(tagged@ =~= tagged_batch(entries@.take(i + 1), k0));
            }
            i = i + 1;
        }
        proof {
            assert(entries@.take(entries@.len() as int) =~= entries@);
        }
        let r = self.push_multiple_raw(tagged);
        proof {
            assert(r is Ok);
        }
        r
    }

    /// Tag one entry with a fresh token carrying `data` and enqueue it.
    pub fn push(&mut self, entry: SqEntry, data: D) -> (r: Result<(), PushError>)
        ensures
            old(self).push_frame(*final(self)),
            r is Err ==> *final(self) == *old(self),
            r is Ok <==> old(self).tokens().can_allocate(1) && (old(self).batch_fits(1) && old(
                self,
            ).counter_fits(1) || !old(self).batch_fits(1) && old(self).backlog_accepts(1)),
            r is Ok ==> {
                let k0 = old(self).tokens().next_key();
                &&& final(self).tokens().spec_get((k0 as u64)) == Some(
                    Token::Op { slot: old(self).slot_spec(), data },
                )
                &&& (forall|k: u64|
                    k != k0 ==> final(self).tokens().spec_get(k) == old(self).tokens().spec_get(k))
                &&& final(self).tokens().next_key() == k0 + 1
                &&& (if old(self).batch_fits(1) {
                    &&& final(self).sq_view() == old(self).sq_view().push(
                        entry.spec_with_user_data((k0 as u64)),
                    )
                    &&& final(self).backlog_view() == old(self).backlog_view()
                    &&& final(self).inflight_spec() == old(self).inflight_spec() + 1
                    &&& final(self).spill_warns_spec() == old(self).spill_warns_spec()
                } else {
                    &&& final(self).sq_view() == old(self).sq_view()
                    &&& final(self).backlog_view() == old(self).backlog_view().push(
                        seq![entry.spec_with_user_data((k0 as u64))],
                    )
                    &&& final(self).inflight_spec() == old(self).inflight_spec()
                    &&& final(self).spill_warns_spec() == bumped(old(self).spill_warns_spec())
                })
            },
    {
        let entries = vec![entry];
        let data_v = vec![data];
        proof {
            assert(entries@ =~= seq![entry]);
            assert(data_v@ =~= seq![data]);
        }
        let r = self.push_multiple(entries, data_v);
        proof {
            let k0 = old(self).tokens().next_key();
            if r is Ok {
                assert(tagged_batch(seq![entry], k0) =~= seq![
                    entry.spec_with_user_data((k0 as u64)),
                ]);
                if old(self).batch_fits(1) {
                    assert(old(self).sq_view() + tagged_batch(seq![entry], k0) =~= old(
                        self,
                    ).sq_view().push(entry.spec_with_user_data((k0 as u64))));
                }
            }
        }
        r
    }

    /// The variable-length equivalent of `push_multiple`: same contract,
    /// same atomicity.
    pub fn push_slice(&mut self, entries: Vec<SqEntry>, data: Vec<D>) -> (r: Result<(), PushError>)
        ensures
            old(self).push_frame(*final(self)),
            r is Err ==> *final(self) == *old(self),
            r is Ok <==> entries@.len() == data@.len() && (entries@.len() == 0 || {
                let n = entries@.len() as int;
                &&& old(self).tokens().can_allocate(n)
                &&& (old(self).batch_fits(n) && old(self).counter_fits(n) || !old(self).batch_fits(
                    n,
                ) && old(self).backlog_accepts(n))
            }),
            entries@.len() == 0 && r is Ok ==> *final(self) == *old(self),
            r is Ok && entries@.len() > 0 ==> {
                let n = entries@.len() as int;
                let k0 = old(self).tokens().next_key();
                &&& (forall|i: int|
                    0 <= i < n ==> final(self).tokens().spec_get(((k0 + i) as u64)) == Some(
                        Token::Op { slot: old(self).slot_spec(), data: data@[i] },
                    ))
                &&& (forall|k: u64|
                    k < k0 || k >= k0 + n ==> final(self).tokens().spec_get(k) == old(
                        self,
                    ).tokens().spec_get(k))
                &&& final(self).tokens().next_key() == k0 + n
                &&& (if old(self).batch_fits(n) {
                    &&& final(self).sq_view() == old(self).sq_view() + tagged_batch(entries@, k0)
                    &&& final(self).backlog_view() == old(self).backlog_view()
                    &&& final(self).inflight_spec() == old(self).inflight_spec() + n
                    &&& final(self).spill_warns_spec() == old(self).spill_warns_spec()
                } else {
                    &&& final(self).sq_view() == old(self).sq_view()
                    &&& final(self).backlog_view() == old(self).backlog_view().push(
                        tagged_batch(entries@, k0),
                    )
                    &&& final(self).inflight_spec() == old(self).inflight_spec()
                    &&& final(self).spill_warns_spec() == bumped(old(self).spill_warns_spec())
                })
            },
    {
        self.push_multiple(entries, data)
    }

    /// The variable-length equivalent of `push_multiple_raw`: same
    /// contract, same atomicity.
    pub fn push_slice_raw(&mut self, entries: Vec<SqEntry>) -> (r: Result<(), PushError>)
        ensures
            old(self).push_frame(*final(self)),
            final(self).tokens() == old(self).tokens(),
            entries@.len() == 0 ==> r is Ok && *final(self) == *old(self),
            entries@.len() > 0 ==> (if old(self).batch_fits(entries@.len() as int) {
                if old(self).counter_fits(entries@.len() as int) {
                    &&& r is Ok
                    &&& final(self).sq_view() == old(self).sq_view() + entries@
                    &&& final(self).backlog_view() == old(self).backlog_view()
                    &&& final(self).inflight_spec() == old(self).inflight_spec() + entries@.len()
                    &&& final(self).spill_warns_spec() == old(self).spill_warns_spec()
                } else {
                    &&& r is Err
                    &&& *final(self) == *old(self)
                }
            } else if old(self).backlog_accepts(entries@.len() as int) {
                &&& r is Ok
                &&& final(self).sq_view() == old(self).sq_view()
                &&& final(self).backlog_view() == old(self).backlog_view().push(entries@)
                &&& final(self).inflight_spec() == old(self).inflight_spec()
                &&& final(self).spill_warns_spec() == bumped(old(self).spill_warns_spec())
            } else {
                &&& r is Err
                &&& *final(self) == *old(self)
            }),
    {
        self.push_multiple_raw(entries)
    }

    /// Move backlog batches into the submission queue, oldest first, while
    /// whole batches fit; the first batch that does not fit stays at the
    /// head and the drain stops. Order is preserved: the submission queue
    /// gains exactly the drained prefix of the backlog, batch by batch, and
    /// the in-flight counter gains the number of entries moved. Returns the
    /// number of batches moved.
    pub fn drain_backlog(&mut self) -> (moved: usize)
        ensures
            old(self).push_frame(*final(self)),
            final(self).tokens() == old(self).tokens(),
            final(self).spill_warns_spec() == old(self).spill_warns_spec(),
            moved <= old(self).backlog_view().len(),
            final(self).backlog_view() == old(self).backlog_view().skip(moved as int),
            final(self).sq_view() == old(self).sq_view() + flat_batches(
                old(self).backlog_view().take(moved as int),
            ),
            final(self).inflight_spec() == old(self).inflight_spec() + flat_batches(
                old(self).backlog_view().take(moved as int),
            ).len(),
            moved < old(self).backlog_view().len() ==> {
                let head = old(self).backlog_view()[moved as int].len() as int;
                !(final(self).batch_fits(head) && final(self).counter_fits(head))
            },
    {
        let ghost bl0 = self.backlog_view();
        let total: usize = self.backlog.len();
        let mut moved: usize = 0;
        loop
            invariant
                moved <= total,
                total == bl0.len(),
                bl0 == old(self).backlog_view(),
                self.backlog_view() == bl0.skip(moved as int),
                self.sq_view() == old(self).sq_view() + flat_batches(bl0.take(moved as int)),
                self.inflight_spec() == old(self).inflight_spec() + flat_batches(
                    bl0.take(moved as int),
                ).len(),
                self.sq.cap() == old(self).sq.cap(),
                self.limit == old(self).limit,
                self.slot == old(self).slot,
                self.spill_warns == old(self).spill_warns,
                self.table == old(self).table,
            ensures
                moved <= bl0.len(),
                self.backlog_view() == bl0.skip(moved as int),
                self.sq_view() == old(self).sq_view() + flat_batches(bl0.take(moved as int)),
                self.inflight_spec() == old(self).inflight_spec() + flat_batches(
                    bl0.take(moved as int),
                ).len(),
                self.sq.cap() == old(self).sq.cap(),
                self.limit == old(self).limit,
                self.slot == old(self).slot,
                self.spill_warns == old(self).spill_warns,
                self.table == old(self).table,
                moved < bl0.len() ==> {
                    let head = bl0[moved as int].len() as int;
                    !(self.batch_fits(head) && self.counter_fits(head))
                },
            decreases bl0.len() - moved,
        {
            let ghost pre_deque = self.backlog@;
            let popped = self.backlog.pop_front();
            match popped {
                None => {
                    proof {
                        assert(bl0.skip(moved as int).len() == 0);
                        assert(moved == bl0.len());
                    }
                    break ;
                },
                Some(batch) => {
                    proof {
                        let f = |v: Vec<SqEntry>| v@;
                        assert(pre_deque.map_values(f)[0] == f(pre_deque[0]));
                        assert(pre_deque.len() > 0);
                        assert(pre_deque.map_values(f).len() == pre_deque.len());
                        assert(bl0.skip(moved as int).len() == bl0.len() - moved);
                        assert(0 <= moved < bl0.len());
                        assert(batch@ == bl0.skip(moved as int)[0]);
                        assert(bl0.skip(moved as int)[0] == bl0[moved as int]);
                    }
                    let n = batch.len();
                    let n64 = n as u64;
                    let cap = self.sq.capacity();
                    let len = self.sq.len();
                    let fits = n <= cap && len <= cap - n;
                    let room = self.inflight <= u64::MAX - n64;
                    if fits && room {
                        let r = self.sq.push_multiple(&batch);
                        proof {
                            assert(r is Ok);
                        }
                        self.inflight = self.inflight + n64;
                        proof {
                            let f = |v: Vec<SqEntry>| v@;
                            assert(self.backlog@ == pre_deque.subrange(1, pre_deque.len() as int));
                            assert forall|j: int| 0 <= j < self.backlog@.len() implies
                                self.backlog@.map_values(f)[j] == bl0.skip(moved as int + 1)[j] by {
                                assert(self.backlog@.map_values(f)[j] == f(pre_deque[j + 1]));
                                assert(pre_deque.map_values(f)[j + 1] == f(pre_deque[j + 1]));
                            }
                            assert(self.backlog@.map_values(f) =~= bl0.skip(moved as int + 1));
                            assert(bl0.take(moved as int + 1).drop_last() =~= bl0.take(
                                moved as int,
                            ));
                            assert(flat_batches(bl0.take(moved as int + 1)) == flat_batches(
                                bl0.take(moved as int),
                            ) + bl0[moved as int]);
                        }
                        moved = moved + 1;
                    } else {
                        self.backlog.push_front(batch);
                        proof {
                            let f = |v: Vec<SqEntry>| v@;
                            assert(self.backlog@ =~= pre_deque);
                            assert(self.backlog@.map_values(f) =~= bl0.skip(moved as int));
                        }
                        break ;
                    }
                },
            }
        }
        moved
    }

    /// Bind the submitter to the handler slot whose callback the loop is
    /// about to run: pushes tag their tokens with this slot.
    pub(crate) fn set_slot(&mut self, slot: usize)
        ensures
            old(self).eq_except_slot(*final(self)),
            final(self).slot_spec() == slot,
    {
        self.slot = slot;
    }

    /// Hand the submission queue's entries to the kernel, in order.
    pub(crate) fn take_sq(&mut self) -> (batch: Vec<SqEntry>)
        ensures
            batch@ == old(self).sq_view(),
            old(self).eq_except_sq(*final(self)),
            final(self).sq_view() == Seq::<SqEntry>::empty(),
    {
        self.sq.take_all()
    }

    /// Queue a control entry of the shutdown coordinator directly into the
    /// submission queue — no backlog spill — counting it in flight.
    pub(crate) fn push_control(&mut self, entry: SqEntry) -> (r: Result<(), PushError>)
        ensures
            r is Ok <==> old(self).batch_fits(1) && old(self).counter_fits(1),
            old(self).eq_except_sq_inflight(*final(self)),
            r is Ok ==> final(self).sq_view() == old(self).sq_view().push(entry) && final(
                self
            ).inflight_spec() == old(self).inflight_spec() + 1,
            r is Err ==> final(self).sq_view() == old(self).sq_view() && final(
                self
            ).inflight_spec() == old(self).inflight_spec(),
    {
        if self.inflight < u64::MAX {
            let r = self.sq.push(entry);
            if r.is_ok() {
                self.inflight = self.inflight + 1;
                Ok(())
            } else {
                Err(PushError)
            }
        } else {
            Err(PushError)
        }
    }

    /// Look a user-data word up in the token table and consume it.
    pub(crate) fn decode_token(&mut self, key: u64) -> (r: Option<Token<D>>)
        ensures
            r == old(self).tokens().spec_get(key),
            old(self).eq_except_tokens(*final(self)),
            final(self).tokens().spec_get(key) is None,
            forall|k2: u64|
                k2 != key ==> final(self).tokens().spec_get(k2) == old(self).tokens().spec_get(k2),
            final(self).tokens().next_key() == old(self).tokens().next_key(),
    {
        self.table.decode(key)
    }

    /// Re-arm a key of this ring with a fresh token.
    pub(crate) fn install_token(&mut self, key: u64, t: Token<D>) -> (r: bool)
        ensures
            r == old(self).tokens().in_range(key),
            old(self).eq_except_tokens(*final(self)),
            r ==> final(self).tokens().spec_get(key) == Some(t),
            r ==> forall|k2: u64|
                k2 != key ==> final(self).tokens().spec_get(k2) == old(self).tokens().spec_get(k2),
            !r ==> final(self).tokens() == old(self).tokens(),
    {
        self.table.install(key, t)
    }

    /// Allocate a token outside any push: the shutdown coordinator's drain
    /// barrier is tagged this way.
    pub(crate) fn encode_token(&mut self, t: Token<D>) -> (r: Option<u64>)
        ensures
            old(self).eq_except_tokens(*final(self)),
            match r {
                Some(k) => {
                    &&& old(self).tokens().can_allocate(1)
                    &&& k != 0
                    &&& k as int == old(self).tokens().next_key()
                    &&& final(self).tokens().spec_get(k) == Some(t)
                    &&& forall|k2: u64|
                        k2 != k ==> final(self).tokens().spec_get(k2) == old(
                            self,
                        ).tokens().spec_get(k2)
                    &&& final(self).tokens().next_key() == old(self).tokens().next_key() + 1
                },
                None => {
                    &&& !old(self).tokens().can_allocate(1)
                    &&& final(self).tokens() == old(self).tokens()
                },
            },
    {
        self.table.encode(t)
    }

    /// Free every live token: the final sweep of every termination path.
    pub(crate) fn clear_tokens(&mut self)
        ensures
            old(self).eq_except_tokens(*final(self)),
            final(self).tokens().is_clear(),
    {
        self.table.clear()
    }

    /// Drop every backlog batch: the shutdown coordinator never submits
    /// them, and the final sweep frees their tokens.
    pub(crate) fn clear_backlog(&mut self)
        ensures
            old(self).eq_except_backlog(*final(self)),
            final(self).backlog_view() == Seq::<Seq<SqEntry>>::empty(),
    {
        self.backlog.clear();
        proof {
            assert(self.backlog_view() =~= Seq::<Seq<SqEntry>>::empty());
        }
    }

    /// Count one completion against the in-flight counter unless the MORE
    /// flag announces further completions for the same submission.
    pub(crate) fn note_completion(&mut self, more: bool)
        ensures
            old(self).eq_except_inflight(*final(self)),
            final(self).inflight_spec() == after_completion(old(self).inflight_spec(), more),
    {
        if !more && self.inflight > 0 {
            self.inflight = self.inflight - 1;
        }
    }
}

} // verus!
