//! End-to-end runs of the ring against the in-process kernel model.

use rummelplatz::{
    ApiError, ControlFlow, Cqe, Ring, RingError, RingOperation, SqEntry, SubmissionQueueSubmitter,
    new_raw_ring,
};

/// One slot whose payload is an unsigned integer, chaining timeouts:
/// payload v < 3 pushes a follow-up timeout with v + 1, payload 3 pushes a
/// counted timeout with payload 4 and exits.
struct ChainedTimeouts {
    seen: Vec<u64>,
    teardown_seen: Vec<u64>,
}

impl RingOperation for ChainedTimeouts {
    type RingData = u64;
    type SetupError = rummelplatz::PushError;
    type TeardownError = u8;
    type ControlFlowWarn = ();
    type ControlFlowError = u8;

    fn setup(
        &mut self,
        submitter: &mut SubmissionQueueSubmitter<u64>,
    ) -> Result<(), rummelplatz::PushError> {
        submitter.push(SqEntry::timeout(1), 0u64)
    }

    fn on_completion(
        &mut self,
        _completion_entry: Cqe,
        ring_data: u64,
        submitter: &mut SubmissionQueueSubmitter<u64>,
    ) -> (ControlFlow<(), u8>, Option<u64>) {
        self.seen.push(ring_data);
        if ring_data < 3 {
            submitter.push(SqEntry::timeout(1), ring_data + 1).unwrap();
            (ControlFlow::Continue, None)
        } else {
            submitter.push(SqEntry::timeout(10), 4u64).unwrap();
            (ControlFlow::Exit, None)
        }
    }

    fn on_teardown_completion(
        &mut self,
        _completion_entry: Cqe,
        ring_data: u64,
        _submitter: &mut SubmissionQueueSubmitter<u64>,
    ) -> Result<(), u8> {
        self.teardown_seen.push(ring_data);
        Ok(())
    }
}

#[test]
fn chained_timeouts() {
    let kernel = new_raw_ring(8).unwrap();
    let handler = ChainedTimeouts { seen: Vec::new(), teardown_seen: Vec::new() };
    let mut ring = Ring::new(kernel, None, vec![handler]);
    let r = ring.run();
    assert!(matches!(r, Ok(())));
    assert_eq!(ring.handlers()[0].seen, vec![0, 1, 2, 3]);
    assert_eq!(ring.handlers()[0].teardown_seen, vec![4]);
    assert_eq!(ring.inflight(), 0);
}

/// A slot whose `setup` pushes a configurable number of no-ops and whose
/// `on_completion` exits once all of them completed.
struct Spiller {
    to_push: u64,
    completed: u64,
    order: Vec<u64>,
}

impl RingOperation for Spiller {
    type RingData = u64;
    type SetupError = rummelplatz::PushError;
    type TeardownError = u8;
    type ControlFlowWarn = ();
    type ControlFlowError = u8;

    fn setup(
        &mut self,
        submitter: &mut SubmissionQueueSubmitter<u64>,
    ) -> Result<(), rummelplatz::PushError> {
        let mut i: u64 = 0;
        while i < self.to_push {
            submitter.push(SqEntry::nop(), i)?;
            i += 1;
        }
        Ok(())
    }

    fn on_completion(
        &mut self,
        _completion_entry: Cqe,
        ring_data: u64,
        _submitter: &mut SubmissionQueueSubmitter<u64>,
    ) -> (ControlFlow<(), u8>, Option<u64>) {
        self.completed += 1;
        self.order.push(ring_data);
        if self.completed == self.to_push {
            (ControlFlow::Exit, None)
        } else {
            (ControlFlow::Continue, None)
        }
    }

    fn on_teardown_completion(
        &mut self,
        _completion_entry: Cqe,
        _ring_data: u64,
        _submitter: &mut SubmissionQueueSubmitter<u64>,
    ) -> Result<(), u8> {
        Ok(())
    }
}

#[test]
fn backlog_spill_without_cap() {
    // Twice the submission queue capacity of no-ops: half spill into the
    // backlog (one warning each) and drain in FIFO order; every push gets
    // its terminal completion.
    let kernel = new_raw_ring(4).unwrap();
    let handler = Spiller { to_push: 8, completed: 0, order: Vec::new() };
    let mut ring = Ring::new(kernel, None, vec![handler]);
    let r = ring.run();
    assert!(matches!(r, Ok(())));
    assert_eq!(ring.handlers()[0].completed, 8);
    assert_eq!(ring.handlers()[0].order, vec![0, 1, 2, 3, 4, 5, 6, 7]);
    assert_eq!(ring.event_log().spill_warns, 4);
    assert_eq!(ring.inflight(), 0);
}

#[test]
fn backlog_spill_with_zero_cap() {
    // Backlog capped at zero: the push after the queue fills is refused,
    // setup hands the push error up, and no completion is processed.
    let kernel = new_raw_ring(4).unwrap();
    let handler = Spiller { to_push: 8, completed: 0, order: Vec::new() };
    let mut ring = Ring::new(kernel, Some(0), vec![handler]);
    let r = ring.run();
    assert!(matches!(r, Err(RingError::Setup(rummelplatz::PushError))));
    assert_eq!(ring.handlers()[0].completed, 0);
    assert_eq!(ring.handlers()[0].order, Vec::<u64>::new());
}

/// A slot that fails its very first completion.
struct FailsFirst {
    completions: u64,
    teardowns: u64,
}

impl RingOperation for FailsFirst {
    type RingData = u64;
    type SetupError = rummelplatz::PushError;
    type TeardownError = u8;
    type ControlFlowWarn = ();
    type ControlFlowError = u32;

    fn setup(
        &mut self,
        submitter: &mut SubmissionQueueSubmitter<u64>,
    ) -> Result<(), rummelplatz::PushError> {
        submitter.push(SqEntry::nop(), 1u64)?;
        submitter.push(SqEntry::nop(), 2u64)
    }

    fn on_completion(
        &mut self,
        _completion_entry: Cqe,
        _ring_data: u64,
        _submitter: &mut SubmissionQueueSubmitter<u64>,
    ) -> (ControlFlow<(), u32>, Option<u64>) {
        self.completions += 1;
        (ControlFlow::Error(42), None)
    }

    fn on_teardown_completion(
        &mut self,
        _completion_entry: Cqe,
        _ring_data: u64,
        _submitter: &mut SubmissionQueueSubmitter<u64>,
    ) -> Result<(), u8> {
        self.teardowns += 1;
        Ok(())
    }
}

#[test]
fn handler_error_aborts() {
    // The first completion fails the run; shutdown still drains, the
    // second request's completion goes to teardown, and the handler's
    // error comes back wrapped.
    let kernel = new_raw_ring(8).unwrap();
    let handler = FailsFirst { completions: 0, teardowns: 0 };
    let mut ring = Ring::new(kernel, None, vec![handler]);
    let r = ring.run();
    assert!(matches!(r, Err(RingError::Completion(42))));
    assert_eq!(ring.handlers()[0].completions, 1);
    assert_eq!(ring.handlers()[0].teardowns, 1);
    assert_eq!(ring.inflight(), 0);
}

/// A slot that warns on each completion until five have occurred, then
/// exits.
struct Warner {
    completions: u64,
}

impl RingOperation for Warner {
    type RingData = u64;
    type SetupError = rummelplatz::PushError;
    type TeardownError = u8;
    type ControlFlowWarn = &'static str;
    type ControlFlowError = u8;

    fn setup(
        &mut self,
        submitter: &mut SubmissionQueueSubmitter<u64>,
    ) -> Result<(), rummelplatz::PushError> {
        let mut i: u64 = 0;
        while i < 6 {
            submitter.push(SqEntry::nop(), i)?;
            i += 1;
        }
        Ok(())
    }

    fn on_completion(
        &mut self,
        _completion_entry: Cqe,
        _ring_data: u64,
        _submitter: &mut SubmissionQueueSubmitter<u64>,
    ) -> (ControlFlow<&'static str, u8>, Option<u64>) {
        self.completions += 1;
        if self.completions <= 5 {
            (ControlFlow::Warn("not ready"), None)
        } else {
            (ControlFlow::Exit, None)
        }
    }

    fn on_teardown_completion(
        &mut self,
        _completion_entry: Cqe,
        _ring_data: u64,
        _submitter: &mut SubmissionQueueSubmitter<u64>,
    ) -> Result<(), u8> {
        Ok(())
    }
}

#[test]
fn warn_is_non_fatal() {
    // Exactly five warnings are counted at warn level and the run still
    // succeeds.
    let kernel = new_raw_ring(8).unwrap();
    let handler = Warner { completions: 0 };
    let mut ring = Ring::new(kernel, None, vec![handler]);
    let r = ring.run();
    assert!(matches!(r, Ok(())));
    assert_eq!(ring.event_log().flow_warns, 5);
    assert_eq!(ring.event_log().spill_warns, 0);
    assert_eq!(ring.handlers()[0].completions, 6);
}

/// A slot that pushes one raw entry with zero user-data beside one tagged
/// entry.
struct RawZero {
    callbacks: u64,
}

impl RingOperation for RawZero {
    type RingData = u64;
    type SetupError = rummelplatz::PushError;
    type TeardownError = u8;
    type ControlFlowWarn = ();
    type ControlFlowError = u8;

    fn setup(
        &mut self,
        submitter: &mut SubmissionQueueSubmitter<u64>,
    ) -> Result<(), rummelplatz::PushError> {
        submitter.push_raw(SqEntry::nop())?;
        submitter.push(SqEntry::nop(), 7u64)
    }

    fn on_completion(
        &mut self,
        _completion_entry: Cqe,
        ring_data: u64,
        _submitter: &mut SubmissionQueueSubmitter<u64>,
    ) -> (ControlFlow<(), u8>, Option<u64>) {
        self.callbacks += 1;
        assert_eq!(ring_data, 7);
        (ControlFlow::Exit, None)
    }

    fn on_teardown_completion(
        &mut self,
        _completion_entry: Cqe,
        _ring_data: u64,
        _submitter: &mut SubmissionQueueSubmitter<u64>,
    ) -> Result<(), u8> {
        Ok(())
    }
}

#[test]
fn zero_tokened_sqe_is_dropped() {
    // The zero-user-data completion is silently discarded — no callback —
    // but the in-flight counter still comes back to zero.
    let kernel = new_raw_ring(8).unwrap();
    let handler = RawZero { callbacks: 0 };
    let mut ring = Ring::new(kernel, None, vec![handler]);
    let r = ring.run();
    assert!(matches!(r, Ok(())));
    assert_eq!(ring.handlers()[0].callbacks, 1);
    assert_eq!(ring.inflight(), 0);
}

/// A slot whose teardown callback fails.
struct TearsBadly {
    completions: u64,
    teardowns: u64,
}

impl RingOperation for TearsBadly {
    type RingData = u64;
    type SetupError = rummelplatz::PushError;
    type TeardownError = u8;
    type ControlFlowWarn = ();
    type ControlFlowError = u8;

    fn setup(
        &mut self,
        submitter: &mut SubmissionQueueSubmitter<u64>,
    ) -> Result<(), rummelplatz::PushError> {
        submitter.push(SqEntry::nop(), 1u64)?;
        submitter.push(SqEntry::nop(), 2u64)
    }

    fn on_completion(
        &mut self,
        _completion_entry: Cqe,
        _ring_data: u64,
        _submitter: &mut SubmissionQueueSubmitter<u64>,
    ) -> (ControlFlow<(), u8>, Option<u64>) {
        self.completions += 1;
        (ControlFlow::Exit, None)
    }

    fn on_teardown_completion(
        &mut self,
        _completion_entry: Cqe,
        _ring_data: u64,
        _submitter: &mut SubmissionQueueSubmitter<u64>,
    ) -> Result<(), u8> {
        self.teardowns += 1;
        Err(5)
    }
}

#[test]
fn exit_stops_dispatch_but_not_teardown() {
    // Exit after the first completion: the second request never reaches
    // on_completion, yet its completion is routed to the teardown
    // callback, whose failure is counted and returned.
    let kernel = new_raw_ring(8).unwrap();
    let handler = TearsBadly { completions: 0, teardowns: 0 };
    let mut ring = Ring::new(kernel, None, vec![handler]);
    let r = ring.run();
    assert!(matches!(r, Err(RingError::Teardown(5))));
    assert_eq!(ring.handlers()[0].completions, 1);
    assert_eq!(ring.handlers()[0].teardowns, 1);
    assert_eq!(ring.event_log().teardown_failures, 1);
    assert_eq!(ring.inflight(), 0);
}

/// A slot that pushes nothing, so the first wait has nothing to deliver.
struct Idle;

impl RingOperation for Idle {
    type RingData = u64;
    type SetupError = rummelplatz::PushError;
    type TeardownError = u8;
    type ControlFlowWarn = ();
    type ControlFlowError = u8;

    fn setup(
        &mut self,
        _submitter: &mut SubmissionQueueSubmitter<u64>,
    ) -> Result<(), rummelplatz::PushError> {
        Ok(())
    }

    fn on_completion(
        &mut self,
        _completion_entry: Cqe,
        _ring_data: u64,
        _submitter: &mut SubmissionQueueSubmitter<u64>,
    ) -> (ControlFlow<(), u8>, Option<u64>) {
        (ControlFlow::Continue, None)
    }

    fn on_teardown_completion(
        &mut self,
        _completion_entry: Cqe,
        _ring_data: u64,
        _submitter: &mut SubmissionQueueSubmitter<u64>,
    ) -> Result<(), u8> {
        Ok(())
    }
}

#[test]
fn waiting_with_nothing_in_flight_is_an_api_error() {
    let kernel = new_raw_ring(4).unwrap();
    let mut ring = Ring::new(kernel, None, vec![Idle]);
    let r = ring.run();
    assert!(matches!(r, Err(RingError::Api(ApiError::WouldStall))));
}

/// A slot that pushes one raw entry carrying a forged user-data word.
struct Forger;

impl RingOperation for Forger {
    type RingData = u64;
    type SetupError = rummelplatz::PushError;
    type TeardownError = u8;
    type ControlFlowWarn = ();
    type ControlFlowError = u8;

    fn setup(
        &mut self,
        submitter: &mut SubmissionQueueSubmitter<u64>,
    ) -> Result<(), rummelplatz::PushError> {
        submitter.push_raw(SqEntry::nop().with_user_data(999))
    }

    fn on_completion(
        &mut self,
        _completion_entry: Cqe,
        _ring_data: u64,
        _submitter: &mut SubmissionQueueSubmitter<u64>,
    ) -> (ControlFlow<(), u8>, Option<u64>) {
        (ControlFlow::Continue, None)
    }

    fn on_teardown_completion(
        &mut self,
        _completion_entry: Cqe,
        _ring_data: u64,
        _submitter: &mut SubmissionQueueSubmitter<u64>,
    ) -> Result<(), u8> {
        Ok(())
    }
}

#[test]
fn forged_user_data_is_a_protocol_violation() {
    // A completion whose user-data names no live token aborts the run
    // with a protocol violation, after an orderly shutdown.
    let kernel = new_raw_ring(4).unwrap();
    let mut ring = Ring::new(kernel, None, vec![Forger]);
    let r = ring.run();
    assert!(matches!(r, Err(RingError::Api(ApiError::ProtocolViolation))));
    assert_eq!(ring.inflight(), 0);
}

#[test]
fn shutdown_push_failure_surfaces() {
    // With a one-entry queue the barrier cannot follow the cancel: the
    // shutdown coordinator's push error is returned.
    let kernel = new_raw_ring(1).unwrap();
    let handler = RawZero { callbacks: 0 };
    let mut ring = Ring::new(kernel, None, vec![handler]);
    // Only the tagged push fits; the raw zero push spills and drains later.
    let r = ring.run();
    assert!(matches!(r, Err(RingError::Push(rummelplatz::PushError))));
}

/// A slot that reuses its token allocation: each completion pushes a raw
/// entry carrying the same user-data word and returns a replacement
/// payload, so no fresh token is allocated for the follow-up.
struct PingPong {
    seen: Vec<u64>,
}

impl RingOperation for PingPong {
    type RingData = u64;
    type SetupError = rummelplatz::PushError;
    type TeardownError = u8;
    type ControlFlowWarn = ();
    type ControlFlowError = u8;

    fn setup(
        &mut self,
        submitter: &mut SubmissionQueueSubmitter<u64>,
    ) -> Result<(), rummelplatz::PushError> {
        submitter.push(SqEntry::nop(), 0u64)
    }

    fn on_completion(
        &mut self,
        completion_entry: Cqe,
        ring_data: u64,
        submitter: &mut SubmissionQueueSubmitter<u64>,
    ) -> (ControlFlow<(), u8>, Option<u64>) {
        self.seen.push(ring_data);
        if ring_data < 2 {
            submitter
                .push_raw(SqEntry::nop().with_user_data(completion_entry.user_data))
                .unwrap();
            (ControlFlow::Continue, Some(ring_data + 1))
        } else {
            (ControlFlow::Exit, None)
        }
    }

    fn on_teardown_completion(
        &mut self,
        _completion_entry: Cqe,
        _ring_data: u64,
        _submitter: &mut SubmissionQueueSubmitter<u64>,
    ) -> Result<(), u8> {
        Ok(())
    }
}

#[test]
fn new_payload_reuses_the_token() {
    // The same user-data word round-trips three times, re-armed with a new
    // payload each time; the run still ends clean.
    let kernel = new_raw_ring(8).unwrap();
    let handler = PingPong { seen: Vec::new() };
    let mut ring = Ring::new(kernel, None, vec![handler]);
    let r = ring.run();
    assert!(matches!(r, Ok(())));
    assert_eq!(ring.handlers()[0].seen, vec![0, 1, 2]);
    assert_eq!(ring.inflight(), 0);
}

#[test]
fn invalid_ring_sizes_are_refused() {
    assert!(matches!(new_raw_ring(0), Err(ApiError::InvalidRingSize)));
    assert!(matches!(new_raw_ring(3), Err(ApiError::InvalidRingSize)));
    assert!(matches!(new_raw_ring(6), Err(ApiError::InvalidRingSize)));
    assert!(new_raw_ring(1).is_ok());
    assert!(new_raw_ring(4).is_ok());
    assert!(new_raw_ring(64).is_ok());
}
