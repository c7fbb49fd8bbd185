//! The multiplexing event loop and its shutdown protocol.
//!
//! A ring owns the kernel facility, the submitter (submission queue,
//! backlog, token table, in-flight counter) and the handler set. `run`
//! drives setup, then alternating submit/wait/drain cycles dispatching each
//! completion to the handler slot its token names, and finally the shutdown
//! protocol: a blanket cancel, a drain barrier tagged `Cancel(u64::MAX)`,
//! and a teardown loop that routes the remaining completions to the
//! handlers' teardown callbacks until the barrier has been seen and nothing
//! is left in flight.
//!
//! Handler callbacks are user code: nothing is assumed of what they do to
//! the submitter beyond what the submitter's own verified methods allow.
//! The loop's guarantees therefore hold whatever the handlers do: every
//! termination path ends with the token table swept clean, and a successful
//! return means the in-flight counter came back to zero.

use vstd::prelude::*;
use crate::ControlFlow;
use crate::entry::{Cqe, OpCode, SqEntry};
use crate::error::{ApiError, PushError, RingError};
use crate::kernel::KernelModel;
use crate::log::{bumped, EventLog};
use crate::squeue::SubmissionQueue;
use crate::submitter::{after_completion, SubmissionQueueSubmitter};
use crate::token::Token;

verus! {

/// What a handler's `on_completion` hands back: the control-flow decision,
/// and optionally a replacement payload that re-arms the completion's token
/// for a follow-up submission.
pub type CompletionResult<W, E, D> = (ControlFlow<W, E>, Option<D>);

/// One operation handler: a slot of the ring's statically declared handler
/// set. The loop calls `setup` once before the first cycle, routes each
/// operational completion to `on_completion`, and each completion after
/// shutdown began to `on_teardown_completion`.
pub trait RingOperation: Sized {
    /// The per-request payload carried through the kernel as a token.
    type RingData;

    /// Why `setup` can fail.
    type SetupError;

    /// Why `on_teardown_completion` can fail.
    type TeardownError;

    /// What `ControlFlow::Warn` carries.
    type ControlFlowWarn;

    /// What `ControlFlow::Error` carries.
    type ControlFlowError;

    /// Prepare the slot's initial submissions.
    fn setup(&mut self, submitter: &mut SubmissionQueueSubmitter<Self::RingData>) -> Result<
        (),
        Self::SetupError,
    >;

    /// Interpret one completion belonging to this slot. Returning a
    /// replacement payload re-arms the completion's token: the handler
    /// must then push a submission carrying the same user-data word.
    fn on_completion(
        &mut self,
        completion_entry: Cqe,
        ring_data: Self::RingData,
        submitter: &mut SubmissionQueueSubmitter<Self::RingData>,
    ) -> CompletionResult<Self::ControlFlowWarn, Self::ControlFlowError, Self::RingData>;

    /// Release whatever a completion arriving during shutdown still owns.
    fn on_teardown_completion(
        &mut self,
        completion_entry: Cqe,
        ring_data: Self::RingData,
        submitter: &mut SubmissionQueueSubmitter<Self::RingData>,
    ) -> Result<(), Self::TeardownError>;
}

/// What dispatching one operational completion came to.
pub enum CqeOutcome<E> {
    /// User-data zero: dropped without a callback, counter still counted.
    Skipped,
    /// Routed to `on_completion` of the named slot, which continued.
    Dispatched { slot: usize },
    /// Routed to the named slot, which continued with a warning; one
    /// warn-level event was counted.
    Warned { slot: usize },
    /// Routed to the named slot, which asked to exit.
    ExitRequested { slot: usize },
    /// Routed to the named slot, which failed.
    Failed { slot: usize, error: E },
    /// The user-data word named no live token of this ring, a control
    /// token surfaced during the operational phase, or the token named a
    /// slot the ring does not have.
    Violation,
}

/// The slot an outcome was dispatched to, if any.
pub open spec fn outcome_slot<E>(r: CqeOutcome<E>) -> Option<usize> {
    match r {
        CqeOutcome::Skipped => None,
        CqeOutcome::Dispatched { slot } => Some(slot),
        CqeOutcome::Warned { slot } => Some(slot),
        CqeOutcome::ExitRequested { slot } => Some(slot),
        CqeOutcome::Failed { slot, error: _ } => Some(slot),
        CqeOutcome::Violation => None,
    }
}

/// What dispatching one completion during teardown came to.
pub enum TeardownOutcome<E> {
    /// User-data zero: dropped without a callback.
    Skipped,
    /// Routed to `on_teardown_completion` of the named slot, which
    /// succeeded.
    Dispatched { slot: usize },
    /// Routed to the named slot, which failed; the drain continues.
    Failed { slot: usize, error: E },
    /// The drain barrier `Cancel(u64::MAX)` was decoded.
    Barrier,
    /// The user-data word named no live token, a control token other than
    /// the barrier, or a slot the ring does not have.
    Violation,
}

/// The protocol engine: the handler set and the submitter. The kernel side
/// stays outside, so the same engine drives the in-process kernel model
/// and an external facility alike, one step at a time.
pub struct RingCore<H: RingOperation> {
    handlers: Vec<H>,
    sub: SubmissionQueueSubmitter<<H as RingOperation>::RingData>,
    /// Warn-level events from handlers answering `ControlFlow::Warn`.
    /// Held beside the submitter, out of the handlers' reach, so its
    /// counting is fixed by `handle_cqe`'s contract.
    flow_warns: u64,
    /// Error-level events from failing teardown callbacks; likewise out
    /// of the handlers' reach.
    teardown_failures: u64,
}

impl<H: RingOperation> RingCore<H> {
    /// The handler set, in declaration order.
    pub closed spec fn handlers_spec(self) -> Seq<H> {
        self.handlers@
    }

    /// The submitter state.
    pub closed spec fn submitter_spec(self) -> SubmissionQueueSubmitter<
        <H as RingOperation>::RingData,
    > {
        self.sub
    }

    /// Warn-level control-flow events counted so far.
    pub closed spec fn flow_warns_spec(self) -> u64 {
        self.flow_warns
    }

    /// Failing teardown callbacks counted so far.
    pub closed spec fn teardown_failures_spec(self) -> u64 {
        self.teardown_failures
    }

    /// The engine's own event counters are untouched.
    pub open spec fn counters_frame(self, post: Self) -> bool {
        &&& post.flow_warns_spec() == self.flow_warns_spec()
        &&& post.teardown_failures_spec() == self.teardown_failures_spec()
    }

    /// A fresh engine: empty queues, clear token table, zero counters.
    pub fn new(sq_capacity: usize, backlog_limit: Option<usize>, handlers: Vec<H>) -> (c: Self)
        ensures
            c.handlers_spec() == handlers@,
            c.submitter_spec().sq_view() == Seq::<SqEntry>::empty(),
            c.submitter_spec().sq_cap() == sq_capacity,
            c.submitter_spec().backlog_view() == Seq::<Seq<SqEntry>>::empty(),
            c.submitter_spec().limit_spec() == backlog_limit,
            c.submitter_spec().tokens().is_clear(),
            c.submitter_spec().inflight_spec() == 0,
            c.submitter_spec().slot_spec() == 0,
            c.submitter_spec().spill_warns_spec() == 0,
            c.flow_warns_spec() == 0,
            c.teardown_failures_spec() == 0,
    {
        RingCore {
            handlers,
            sub: SubmissionQueueSubmitter::new(SubmissionQueue::new(sq_capacity), backlog_limit),
            flow_warns: 0,
            teardown_failures: 0,
        }
    }

    /// The number of handler slots.
    pub fn handler_count(&self) -> (n: usize)
        ensures
            n == self.handlers_spec().len(),
    {
        self.handlers.len()
    }

    /// The handler set, for inspection once the loop is done.
    pub fn handlers(&self) -> (h: &Vec<H>)
        ensures
            h@ == self.handlers_spec(),
    {
        &self.handlers
    }

    /// The in-flight counter.
    pub fn inflight(&self) -> (n: u64)
        ensures
            n == self.submitter_spec().inflight_spec(),
    {
        self.sub.inflight()
    }

    /// The event counters, assembled from the submitter's spill count and
    /// the engine's own counters.
    pub fn event_log(&self) -> (l: EventLog)
        ensures
            l == (EventLog {
                spill_warns: self.submitter_spec().spill_warns_spec(),
                flow_warns: self.flow_warns_spec(),
                teardown_failures: self.teardown_failures_spec(),
            }),
    {
        EventLog {
            spill_warns: self.sub.spill_warns(),
            flow_warns: self.flow_warns,
            teardown_failures: self.teardown_failures,
        }
    }

    /// Run every handler's `setup` in declaration order, each with the
    /// submitter bound to its slot; the first failure aborts the pass and
    /// is handed up.
    pub fn setup_all(&mut self) -> (r: Result<(), <H as RingOperation>::SetupError>)
        ensures
            final(self).handlers_spec().len() == old(self).handlers_spec().len(),
            old(self).counters_frame(*final(self)),
            old(self).handlers_spec().len() == 0 ==> r is Ok && *final(self) == *old(self),
    {
        let n = self.handlers.len();
        let mut i: usize = 0;
        while i < n
            invariant
                i <= n,
                n == old(self).handlers_spec().len(),
                self.handlers@.len() == n,
                self.flow_warns == old(self).flow_warns,
                self.teardown_failures == old(self).teardown_failures,
                n == 0 ==> *self == *old(self),
            decreases n - i,
        {
            self.sub.set_slot(i);
            let r = self.setup_slot(i);
            if let Err(e) = r {
                return Err(e);
            }
            i = i + 1;
        }
        Ok(())
    }

    /// Run one slot's `setup` callback. The submitter must already be
    /// bound to that slot, so every submission the callback makes is
    /// tagged with it.
    fn setup_slot(&mut self, i: usize) -> (r: Result<(), <H as RingOperation>::SetupError>)
        requires
            i < old(self).handlers_spec().len(),
            old(self).submitter_spec().slot_spec() == i,
        ensures
            final(self).handlers_spec().len() == old(self).handlers_spec().len(),
            old(self).counters_frame(*final(self)),
    {
        let mut h = self.handlers.remove(i);
        let r = h.setup(&mut self.sub);
        self.handlers.insert(i, h);
        r
    }

    /// Hand the submission queue's entries to the caller for submission.
    pub fn take_submissions(&mut self) -> (batch: Vec<SqEntry>)
        ensures
            batch@ == old(self).submitter_spec().sq_view(),
            old(self).submitter_spec().eq_except_sq(final(self).submitter_spec()),
            final(self).submitter_spec().sq_view() == Seq::<SqEntry>::empty(),
            final(self).handlers_spec() == old(self).handlers_spec(),
            old(self).counters_frame(*final(self)),
    {
        self.sub.take_sq()
    }

    /// Move backlog batches into the submission queue, oldest first, while
    /// they fit; returns the number of batches moved. Order-preserving:
    /// see `SubmissionQueueSubmitter::drain_backlog`.
    pub fn drain_backlog(&mut self) -> (moved: usize)
        ensures
            final(self).handlers_spec() == old(self).handlers_spec(),
            old(self).submitter_spec().push_frame(final(self).submitter_spec()),
            final(self).submitter_spec().tokens() == old(self).submitter_spec().tokens(),
            moved <= old(self).submitter_spec().backlog_view().len(),
            final(self).submitter_spec().backlog_view() == old(
                self,
            ).submitter_spec().backlog_view().skip(moved as int),
            final(self).submitter_spec().spill_warns_spec() == old(
                self,
            ).submitter_spec().spill_warns_spec(),
            old(self).counters_frame(*final(self)),
    {
        self.sub.drain_backlog()
    }

    /// Account one completion and dispatch it: drop it when its user-data
    /// is zero, otherwise decode the token — consuming it — and route the
    /// payload to `on_completion` of the slot the token names. A returned
    /// replacement payload re-arms the token. The outcome reports the
    /// handler's decision; a warn decision is counted here.
    pub fn handle_cqe(&mut self, cqe: Cqe) -> (r: CqeOutcome<<H as RingOperation>::ControlFlowError>)
        ensures
            final(self).handlers_spec().len() == old(self).handlers_spec().len(),
            final(self).teardown_failures_spec() == old(self).teardown_failures_spec(),
            final(self).flow_warns_spec() == (if r is Warned {
                bumped(old(self).flow_warns_spec())
            } else {
                old(self).flow_warns_spec()
            }),
            cqe.user_data != 0 && outcome_slot(r) is Some ==> match final(
                self
            ).submitter_spec().tokens().spec_get(cqe.user_data) {
                None => true,
                Some(t2) => match t2 {
                    Token::Op { slot: s2, data: _ } => Some(s2) == outcome_slot(r),
                    Token::Cancel(_) => false,
                },
            },
            cqe.user_data == 0 ==> {
                &&& r is Skipped
                &&& old(self).submitter_spec().eq_except_inflight(final(self).submitter_spec())
                &&& final(self).submitter_spec().inflight_spec() == after_completion(
                    old(self).submitter_spec().inflight_spec(),
                    cqe.more,
                )
                &&& final(self).handlers_spec() == old(self).handlers_spec()
            },
            cqe.user_data != 0 ==> match old(self).submitter_spec().tokens().spec_get(
                cqe.user_data,
            ) {
                None => r is Violation,
                Some(t) => match t {
                    Token::Cancel(_) => r is Violation,
                    Token::Op { slot, data: _ } => {
                        if slot < old(self).handlers_spec().len() {
                            outcome_slot(r) == Some(slot)
                        } else {
                            r is Violation
                        }
                    },
                },
            },
            cqe.user_data != 0 && r is Violation ==> {
                &&& old(self).submitter_spec().eq_except_completion(final(self).submitter_spec())
                &&& final(self).submitter_spec().inflight_spec() == after_completion(
                    old(self).submitter_spec().inflight_spec(),
                    cqe.more,
                )
                &&& final(self).submitter_spec().tokens().spec_get(cqe.user_data) is None
                &&& final(self).handlers_spec() == old(self).handlers_spec()
            },
    {
        self.sub.note_completion(cqe.more);
        if cqe.user_data == 0 {
            return CqeOutcome::Skipped;
        }
        match self.sub.decode_token(cqe.user_data) {
            None => CqeOutcome::Violation,
            Some(Token::Cancel(_)) => CqeOutcome::Violation,
            Some(Token::Op { slot, data }) => {
                if slot >= self.handlers.len() {
                    return CqeOutcome::Violation;
                }
                self.sub.set_slot(slot);
                let mut h = self.handlers.remove(slot);
                let (flow, new_data) = h.on_completion(cqe, data, &mut self.sub);
                self.handlers.insert(slot, h);
                // The key died with the decode above and a callback cannot
                // revive it; consume whatever stands there all the same, so
                // that afterwards the key is provably dead or re-armed for
                // this slot alone.
                let _ = self.sub.decode_token(cqe.user_data);
                if let Some(nd) = new_data {
                    let _ = self.sub.install_token(cqe.user_data, Token::Op { slot, data: nd });
                }
                match flow {
                    ControlFlow::Continue => CqeOutcome::Dispatched { slot },
                    ControlFlow::Warn(_w) => {
                        if self.flow_warns < u64::MAX {
                            self.flow_warns = self.flow_warns + 1;
                        }
                        CqeOutcome::Warned { slot }
                    },
                    ControlFlow::Exit => CqeOutcome::ExitRequested { slot },
                    ControlFlow::Error(e) => CqeOutcome::Failed { slot, error: e },
                }
            },
        }
    }

    /// Begin the shutdown protocol: drop the backlog (its tokens fall to
    /// the final sweep), queue a blanket cancel with zero user-data so its
    /// own completion is discarded, and queue the drain barrier — a no-op
    /// flagged for drain, tagged with a fresh `Cancel(u64::MAX)` token —
    /// behind it. On success exactly one barrier entry stands last in the
    /// queue, and its token is the only live `Cancel` token this call adds.
    pub fn start_teardown(&mut self) -> (r: Result<(), PushError>)
        ensures
            final(self).handlers_spec() == old(self).handlers_spec(),
            old(self).counters_frame(*final(self)),
            final(self).submitter_spec().backlog_view() == Seq::<Seq<SqEntry>>::empty(),
            old(self).submitter_spec().push_frame(final(self).submitter_spec()),
            final(self).submitter_spec().spill_warns_spec() == old(
                self,
            ).submitter_spec().spill_warns_spec(),
            r is Ok <==> old(self).submitter_spec().batch_fits(2) && old(
                self,
            ).submitter_spec().counter_fits(2) && old(self).submitter_spec().tokens().can_allocate(
                1,
            ),
            !(old(self).submitter_spec().batch_fits(1) && old(self).submitter_spec().counter_fits(
                1,
            )) ==> {
                &&& final(self).submitter_spec().sq_view() == old(self).submitter_spec().sq_view()
                &&& final(self).submitter_spec().inflight_spec() == old(
                    self,
                ).submitter_spec().inflight_spec()
                &&& final(self).submitter_spec().tokens() == old(self).submitter_spec().tokens()
            },
            old(self).submitter_spec().batch_fits(1) && old(self).submitter_spec().counter_fits(1)
                && !old(self).submitter_spec().tokens().can_allocate(1) ==> {
                let cancel = SqEntry { opcode: OpCode::CancelAll, drain: false, user_data: 0 };
                &&& final(self).submitter_spec().sq_view() == old(
                    self,
                ).submitter_spec().sq_view().push(cancel)
                &&& final(self).submitter_spec().inflight_spec() == old(
                    self,
                ).submitter_spec().inflight_spec() + 1
                &&& final(self).submitter_spec().tokens() == old(self).submitter_spec().tokens()
            },
            old(self).submitter_spec().batch_fits(1) && old(self).submitter_spec().counter_fits(1)
                && old(self).submitter_spec().tokens().can_allocate(1) && !(old(
                self,
            ).submitter_spec().batch_fits(2) && old(self).submitter_spec().counter_fits(2)) ==> {
                let k = old(self).submitter_spec().tokens().next_key();
                let cancel = SqEntry { opcode: OpCode::CancelAll, drain: false, user_data: 0 };
                &&& final(self).submitter_spec().sq_view() == old(
                    self,
                ).submitter_spec().sq_view().push(cancel)
                &&& final(self).submitter_spec().inflight_spec() == old(
                    self,
                ).submitter_spec().inflight_spec() + 1
                &&& final(self).submitter_spec().tokens().spec_get((k as u64)) == Some(
                    Token::<<H as RingOperation>::RingData>::Cancel(u64::MAX),
                )
                &&& (forall|k2: u64|
                    k2 != k ==> final(self).submitter_spec().tokens().spec_get(k2) == old(
                        self,
                    ).submitter_spec().tokens().spec_get(k2))
                &&& final(self).submitter_spec().tokens().next_key() == k + 1
            },
            r is Ok ==> {
                let k = old(self).submitter_spec().tokens().next_key();
                let cancel = SqEntry { opcode: OpCode::CancelAll, drain: false, user_data: 0 };
                let barrier = SqEntry { opcode: OpCode::Nop, drain: true, user_data: k as u64 };
                &&& final(self).submitter_spec().sq_view() == old(
                    self,
                ).submitter_spec().sq_view().push(cancel).push(barrier)
                &&& barrier.user_data != 0
                &&& final(self).submitter_spec().tokens().spec_get((k as u64)) == Some(
                    Token::<<H as RingOperation>::RingData>::Cancel(u64::MAX),
                )
                &&& (forall|k2: u64|
                    k2 != k ==> final(self).submitter_spec().tokens().spec_get(k2) == old(
                        self,
                    ).submitter_spec().tokens().spec_get(k2))
                &&& final(self).submitter_spec().inflight_spec() == old(
                    self,
                ).submitter_spec().inflight_spec() + 2
            },
    {
        self.sub.clear_backlog();
        let cancel = SqEntry::cancel_all();
        if let Err(e) = self.sub.push_control(cancel) {
            return Err(e);
        }
        let key = match self.sub.encode_token(Token::Cancel(u64::MAX)) {
            Some(k) => k,
            None => {
                return Err(PushError);
            },
        };
        let barrier = SqEntry::nop().with_drain().with_user_data(key);
        if let Err(e) = self.sub.push_control(barrier) {
            return Err(e);
        }
        Ok(())
    }

    /// Account one completion arriving during shutdown and dispatch it:
    /// zero user-data is dropped, the barrier token ends the drain, an
    /// operation token is routed to `on_teardown_completion` of its slot —
    /// a failure there is counted and reported, but the caller's drain
    /// goes on.
    pub fn handle_teardown_cqe(&mut self, cqe: Cqe) -> (r: TeardownOutcome<
        <H as RingOperation>::TeardownError,
    >)
        ensures
            final(self).handlers_spec().len() == old(self).handlers_spec().len(),
            final(self).flow_warns_spec() == old(self).flow_warns_spec(),
            final(self).teardown_failures_spec() == (if r is Failed {
                bumped(old(self).teardown_failures_spec())
            } else {
                old(self).teardown_failures_spec()
            }),
            cqe.user_data == 0 ==> {
                &&& r is Skipped
                &&& old(self).submitter_spec().eq_except_inflight(final(self).submitter_spec())
                &&& final(self).submitter_spec().inflight_spec() == after_completion(
                    old(self).submitter_spec().inflight_spec(),
                    cqe.more,
                )
                &&& final(self).handlers_spec() == old(self).handlers_spec()
            },
            cqe.user_data != 0 ==> match old(self).submitter_spec().tokens().spec_get(
                cqe.user_data,
            ) {
                None => r is Violation,
                Some(t) => match t {
                    Token::Cancel(v) => {
                        if v == u64::MAX {
                            r is Barrier
                        } else {
                            r is Violation
                        }
                    },
                    Token::Op { slot, data: _ } => {
                        if slot < old(self).handlers_spec().len() {
                            (r matches TeardownOutcome::Dispatched { slot: s } && s == slot) || (
                            r matches TeardownOutcome::Failed { slot: s, error: _ } && s == slot)
                        } else {
                            r is Violation
                        }
                    },
                },
            },
            cqe.user_data != 0 ==> final(self).submitter_spec().tokens().spec_get(
                cqe.user_data,
            ) is None,
    {
        self.sub.note_completion(cqe.more);
        if cqe.user_data == 0 {
            return TeardownOutcome::Skipped;
        }
        match self.sub.decode_token(cqe.user_data) {
            None => TeardownOutcome::Violation,
            Some(Token::Cancel(v)) => {
                if v == u64::MAX {
                    TeardownOutcome::Barrier
                } else {
                    TeardownOutcome::Violation
                }
            },
            Some(Token::Op { slot, data }) => {
                if slot >= self.handlers.len() {
                    return TeardownOutcome::Violation;
                }
                self.sub.set_slot(slot);
                let mut h = self.handlers.remove(slot);
                let r = h.on_teardown_completion(cqe, data, &mut self.sub);
                self.handlers.insert(slot, h);
                // Teardown offers no re-arm: consume whatever stands at
                // the key, so that it is provably dead for every outcome.
                let _ = self.sub.decode_token(cqe.user_data);
                match r {
                    Ok(()) => TeardownOutcome::Dispatched { slot },
                    Err(e) => {
                        if self.teardown_failures < u64::MAX {
                            self.teardown_failures = self.teardown_failures + 1;
                        }
                        TeardownOutcome::Failed { slot, error: e }
                    },
                }
            },
        }
    }

    /// The final sweep of every termination path: free every live token,
    /// so nothing a handler or an interrupted drain left behind leaks.
    pub fn sweep_tokens(&mut self)
        ensures
            final(self).handlers_spec() == old(self).handlers_spec(),
            old(self).submitter_spec().eq_except_tokens(final(self).submitter_spec()),
            final(self).submitter_spec().tokens().is_clear(),
            old(self).counters_frame(*final(self)),
    {
        self.sub.clear_tokens()
    }
}

/// Fold one operational outcome into the loop's pending result: the first
/// failure — a handler error or a protocol violation — is recorded, and
/// it, like a requested exit, ends the operational phase; a plain or
/// warned dispatch and a dropped completion carry on.
pub fn fold_completion_outcome<S, C, T>(
    result: Result<(), RingError<S, C, T>>,
    outcome: CqeOutcome<C>,
) -> (r: (Result<(), RingError<S, C, T>>, bool))
    ensures
        r.1 == (outcome is ExitRequested || outcome is Failed || outcome is Violation),
        r.0 == (match outcome {
            CqeOutcome::Skipped => result,
            CqeOutcome::Dispatched { slot: _ } => result,
            CqeOutcome::Warned { slot: _ } => result,
            CqeOutcome::ExitRequested { slot: _ } => result,
            CqeOutcome::Failed { slot: _, error } => Err(RingError::Completion(error)),
            CqeOutcome::Violation => Err(RingError::Api(ApiError::ProtocolViolation)),
        }),
{
    match outcome {
        CqeOutcome::Skipped => (result, false),
        CqeOutcome::Dispatched { slot: _ } => (result, false),
        CqeOutcome::Warned { slot: _ } => (result, false),
        CqeOutcome::ExitRequested { slot: _ } => (result, true),
        CqeOutcome::Failed { slot: _, error } => (Err(RingError::Completion(error)), true),
        CqeOutcome::Violation => (Err(RingError::Api(ApiError::ProtocolViolation)), true),
    }
}

/// Fold one teardown outcome into the pending result, under the error
/// priority the driver keeps: a teardown failure never displaces a
/// recorded completion, API or push error — it replaces only a success or
/// an earlier teardown error — and never ends the drain; a violation is
/// recorded only over a success. The flag reports the drain barrier.
pub fn fold_teardown_outcome<S, C, T>(
    result: Result<(), RingError<S, C, T>>,
    outcome: TeardownOutcome<T>,
) -> (r: (Result<(), RingError<S, C, T>>, bool))
    ensures
        r.1 == (outcome is Barrier),
        r.0 == (match outcome {
            TeardownOutcome::Skipped => result,
            TeardownOutcome::Dispatched { slot: _ } => result,
            TeardownOutcome::Barrier => result,
            TeardownOutcome::Violation => (if result is Ok {
                Err(RingError::Api(ApiError::ProtocolViolation))
            } else {
                result
            }),
            TeardownOutcome::Failed { slot: _, error } => (match result {
                Err(RingError::Teardown(_)) => Err(RingError::Teardown(error)),
                Ok(_) => Err(RingError::Teardown(error)),
                Err(_) => result,
            }),
        }),
{
    match outcome {
        TeardownOutcome::Skipped => (result, false),
        TeardownOutcome::Dispatched { slot: _ } => (result, false),
        TeardownOutcome::Barrier => (result, true),
        TeardownOutcome::Violation => {
            if result.is_ok() {
                (Err(RingError::Api(ApiError::ProtocolViolation)), false)
            } else {
                (result, false)
            }
        },
        TeardownOutcome::Failed { slot: _, error } => {
            let replace = match &result {
                Ok(_) => true,
                Err(RingError::Teardown(_)) => true,
                Err(_) => false,
            };
            if replace {
                (Err(RingError::Teardown(error)), false)
            } else {
                (result, false)
            }
        },
    }
}

/// The ring: the protocol engine bound to the in-process kernel model.
pub struct Ring<H: RingOperation> {
    core: RingCore<H>,
    kernel: KernelModel,
    ran: bool,
}

impl<H: RingOperation> Ring<H> {
    /// Whether `run` was already driven once. A ring drives once.
    pub closed spec fn ran_spec(self) -> bool {
        self.ran
    }

    /// The protocol engine's state.
    pub closed spec fn core_spec(self) -> RingCore<H> {
        self.core
    }

    /// No token of this ring is live.
    pub open spec fn tokens_clear(self) -> bool {
        self.core_spec().submitter_spec().tokens().is_clear()
    }

    /// A ring around an already-built kernel facility, with the handler
    /// set in declaration order and an optional backlog cap.
    pub fn new(kernel: KernelModel, backlog_limit: Option<usize>, handlers: Vec<H>) -> (ring: Self)
        ensures
            !ring.ran_spec(),
            ring.core_spec().handlers_spec() == handlers@,
            ring.core_spec().submitter_spec().sq_view() == Seq::<SqEntry>::empty(),
            ring.core_spec().submitter_spec().sq_cap() == kernel.sq_capacity_spec(),
            ring.core_spec().submitter_spec().backlog_view() == Seq::<Seq<SqEntry>>::empty(),
            ring.core_spec().submitter_spec().limit_spec() == backlog_limit,
            ring.tokens_clear(),
            ring.core_spec().submitter_spec().inflight_spec() == 0,
            ring.core_spec().submitter_spec().slot_spec() == 0,
            ring.core_spec().submitter_spec().spill_warns_spec() == 0,
            ring.core_spec().flow_warns_spec() == 0,
            ring.core_spec().teardown_failures_spec() == 0,
    {
        let cap = kernel.sq_capacity();
        Ring { core: RingCore::new(cap as usize, backlog_limit, handlers), kernel, ran: false }
    }

    /// The handler set, for inspection once the loop is done.
    pub fn handlers(&self) -> (h: &Vec<H>)
        ensures
            h@ == self.core_spec().handlers_spec(),
    {
        self.core.handlers()
    }

    /// The in-flight counter.
    pub fn inflight(&self) -> (n: u64)
        ensures
            n == self.core_spec().submitter_spec().inflight_spec(),
    {
        self.core.inflight()
    }

    /// The event counters.
    pub fn event_log(&self) -> (l: EventLog)
        ensures
            l == (EventLog {
                spill_warns: self.core_spec().submitter_spec().spill_warns_spec(),
                flow_warns: self.core_spec().flow_warns_spec(),
                teardown_failures: self.core_spec().teardown_failures_spec(),
            }),
    {
        self.core.event_log()
    }

    /// Drive the ring to completion: setup, the operational loop, then the
    /// shutdown protocol. Whatever the handlers did, the token table is
    /// swept clean on every return path — no payload leaks — and a
    /// successful return means the in-flight counter came back to zero.
    pub fn run(&mut self) -> (r: Result<
        (),
        RingError<
            <H as RingOperation>::SetupError,
            <H as RingOperation>::ControlFlowError,
            <H as RingOperation>::TeardownError,
        >,
    >)
        requires
            !old(self).ran_spec(),
        ensures
            final(self).ran_spec(),
            final(self).tokens_clear(),
            r is Ok ==> final(self).core_spec().submitter_spec().inflight_spec() == 0,
    {
        self.ran = true;
        if let Err(e) = self.core.setup_all() {
            self.core.sweep_tokens();
            return Err(RingError::Setup(e));
        }
        let mut result: Result<
            (),
            RingError<
                <H as RingOperation>::SetupError,
                <H as RingOperation>::ControlFlowError,
                <H as RingOperation>::TeardownError,
            >,
        > = Ok(());
        let mut exited = false;
        let mut fuel: u64 = u64::MAX;
        loop
            invariant
                self.ran,
            ensures
                self.ran,
            decreases fuel,
        {
            if fuel == 0 {
                self.core.sweep_tokens();
                return Err(RingError::Api(ApiError::Exhausted));
            }
            fuel = fuel - 1;
            let batch = self.core.take_submissions();
            self.kernel.submit(batch);
            if let Err(e) = self.kernel.wait_for_completions() {
                self.core.sweep_tokens();
                return Err(RingError::Api(e));
            }
            let _ = self.core.drain_backlog();
            loop
                invariant
                    self.ran,
                ensures
                    self.ran,
                decreases self.kernel.cq_view().len(),
            {
                match self.kernel.pop_cqe() {
                    None => {
                        break ;
                    },
                    Some(cqe) => {
                        let outcome = self.core.handle_cqe(cqe);
                        let folded = fold_completion_outcome(result, outcome);
                        result = folded.0;
                        if folded.1 {
                            exited = true;
                            break ;
                        }
                    },
                }
            }
            if exited {
                break ;
            }
        }
        if let Err(e) = self.core.start_teardown() {
            self.core.sweep_tokens();
            return Err(RingError::Push(e));
        }
        let mut barrier_seen = false;
        let mut teardown_fuel: u64 = u64::MAX;
        loop
            invariant
                self.ran,
            ensures
                self.ran,
                self.core.submitter_spec().inflight_spec() == 0,
            decreases teardown_fuel,
        {
            if barrier_seen && self.core.inflight() == 0 {
                break ;
            }
            if teardown_fuel == 0 {
                self.core.sweep_tokens();
                return Err(RingError::Api(ApiError::Exhausted));
            }
            teardown_fuel = teardown_fuel - 1;
            let batch = self.core.take_submissions();
            self.kernel.submit(batch);
            if let Err(e) = self.kernel.wait_for_completions() {
                self.core.sweep_tokens();
                return Err(RingError::Api(e));
            }
            let _ = self.core.drain_backlog();
            loop
                invariant
                    self.ran,
                ensures
                    self.ran,
                decreases self.kernel.cq_view().len(),
            {
                match self.kernel.pop_cqe() {
                    None => {
                        break ;
                    },
                    Some(cqe) => {
                        let outcome = self.core.handle_teardown_cqe(cqe);
                        let folded = fold_teardown_outcome(result, outcome);
                        result = folded.0;
                        if folded.1 {
                            barrier_seen = true;
                        }
                    },
                }
            }
        }
        self.core.sweep_tokens();
        result
    }
}

} // verus!
