//! Unit tests of the ring's pieces: the token codec, the submission queue
//! model, the kernel model, and the submitter's push rules.

use rummelplatz::{
    ApiError, Cqe, KernelModel, OpCode, PushError, SqEntry, SubmissionQueueSubmitter, Token,
    TokenTable, new_raw_ring,
};
use rummelplatz::squeue::SubmissionQueue;

#[test]
fn token_round_trip() {
    let mut table: TokenTable<u64> = TokenTable::new();
    let k = table.encode(Token::Op { slot: 3, data: 9 }).unwrap();
    assert_ne!(k, 0);
    match table.decode(k) {
        Some(Token::Op { slot, data }) => {
            assert_eq!(slot, 3);
            assert_eq!(data, 9);
        },
        _ => panic!("decoded the wrong token"),
    }
}

#[test]
fn token_is_consumed_exactly_once() {
    let mut table: TokenTable<u64> = TokenTable::new();
    let k = table.encode(Token::Op { slot: 0, data: 1 }).unwrap();
    assert!(table.decode(k).is_some());
    assert!(table.decode(k).is_none());
    assert!(table.decode(k).is_none());
}

#[test]
fn zero_and_unknown_keys_decode_to_nothing() {
    let mut table: TokenTable<u64> = TokenTable::new();
    assert!(table.decode(0).is_none());
    assert!(table.decode(1).is_none());
    assert!(table.decode(u64::MAX).is_none());
}

#[test]
fn keys_are_distinct_and_counting_up() {
    let mut table: TokenTable<u64> = TokenTable::new();
    let a = table.encode(Token::Op { slot: 0, data: 0 }).unwrap();
    let b = table.encode(Token::Op { slot: 0, data: 1 }).unwrap();
    let c = table.encode(Token::Cancel(u64::MAX)).unwrap();
    assert_eq!(a, 1);
    assert_eq!(b, 2);
    assert_eq!(c, 3);
    // Consuming one key leaves the others alive.
    assert!(table.decode(b).is_some());
    assert!(table.decode(a).is_some());
    match table.decode(c) {
        Some(Token::Cancel(v)) => assert_eq!(v, u64::MAX),
        _ => panic!("expected the cancel token"),
    }
}

#[test]
fn install_re_arms_a_consumed_key() {
    let mut table: TokenTable<u64> = TokenTable::new();
    let k = table.encode(Token::Op { slot: 1, data: 10 }).unwrap();
    assert!(table.decode(k).is_some());
    assert!(table.install(k, Token::Op { slot: 1, data: 11 }));
    match table.decode(k) {
        Some(Token::Op { slot, data }) => {
            assert_eq!(slot, 1);
            assert_eq!(data, 11);
        },
        _ => panic!("the re-armed token was lost"),
    }
    // A key never allocated cannot be re-armed.
    assert!(!table.install(99, Token::Op { slot: 1, data: 12 }));
}

#[test]
fn submission_queue_batches_are_atomic() {
    let mut q = SubmissionQueue::new(2);
    let big = vec![SqEntry::nop(), SqEntry::nop(), SqEntry::nop()];
    assert!(matches!(q.push_multiple(&big), Err(PushError)));
    assert_eq!(q.len(), 0);
    let pair = vec![SqEntry::nop(), SqEntry::timeout(1)];
    assert!(q.push_multiple(&pair).is_ok());
    assert_eq!(q.len(), 2);
    assert!(matches!(q.push(SqEntry::nop()), Err(PushError)));
    let out = q.take_all();
    assert_eq!(out.len(), 2);
    assert_eq!(out[0].opcode, OpCode::Nop);
    assert_eq!(out[1].opcode, OpCode::Timeout { count: 1 });
    assert_eq!(q.len(), 0);
}

#[test]
fn kernel_delivers_one_terminal_completion_per_entry_in_order() {
    let mut kernel: KernelModel = new_raw_ring(8).unwrap();
    kernel.submit(vec![
        SqEntry::nop().with_user_data(10),
        SqEntry::nop().with_user_data(20),
        SqEntry::nop().with_user_data(30),
    ]);
    assert!(kernel.wait_for_completions().is_ok());
    let a: Cqe = kernel.pop_cqe().unwrap();
    let b: Cqe = kernel.pop_cqe().unwrap();
    let c: Cqe = kernel.pop_cqe().unwrap();
    assert_eq!(a.user_data, 10);
    assert_eq!(b.user_data, 20);
    assert_eq!(c.user_data, 30);
    assert!(!a.more && !b.more && !c.more);
    assert_eq!(a.result, 0);
    assert!(kernel.pop_cqe().is_none());
}

#[test]
fn kernel_refuses_a_wait_that_would_block_forever() {
    let mut kernel: KernelModel = new_raw_ring(4).unwrap();
    assert!(matches!(kernel.wait_for_completions(), Err(ApiError::WouldStall)));
}

#[test]
fn push_spills_when_the_queue_is_full() {
    let sq = SubmissionQueue::new(2);
    let mut sub: SubmissionQueueSubmitter<u64> = SubmissionQueueSubmitter::new(sq, None);
    assert!(sub.push(SqEntry::nop(), 1).is_ok());
    assert!(sub.push(SqEntry::nop(), 2).is_ok());
    assert_eq!(sub.inflight(), 2);
    assert_eq!(sub.backlog_len(), 0);
    // The queue is full: the next batch becomes one backlog element and is
    // not counted in flight yet; one warning is counted.
    assert!(sub.push(SqEntry::nop(), 3).is_ok());
    assert_eq!(sub.inflight(), 2);
    assert_eq!(sub.backlog_len(), 1);
    assert_eq!(sub.spill_warns(), 1);
}

#[test]
fn capped_backlog_refuses_the_overflowing_batch() {
    let sq = SubmissionQueue::new(1);
    let mut sub: SubmissionQueueSubmitter<u64> = SubmissionQueueSubmitter::new(sq, Some(1));
    assert!(sub.push(SqEntry::nop(), 1).is_ok());
    // One singleton batch still fits under the cap of one.
    assert!(sub.push(SqEntry::nop(), 2).is_ok());
    assert_eq!(sub.backlog_len(), 1);
    // The next would exceed the cap: refused, nothing taken.
    assert!(matches!(sub.push(SqEntry::nop(), 3), Err(PushError)));
    assert_eq!(sub.backlog_len(), 1);
    assert_eq!(sub.inflight(), 1);
}

#[test]
fn mismatched_batch_lengths_are_refused() {
    let sq = SubmissionQueue::new(8);
    let mut sub: SubmissionQueueSubmitter<u64> = SubmissionQueueSubmitter::new(sq, None);
    let entries = vec![SqEntry::nop(), SqEntry::nop()];
    let data = vec![1u64];
    assert!(matches!(sub.push_multiple(entries, data), Err(PushError)));
    assert_eq!(sub.inflight(), 0);
}

#[test]
fn push_multiple_is_atomic_with_the_backlog() {
    let sq = SubmissionQueue::new(2);
    let mut sub: SubmissionQueueSubmitter<u64> = SubmissionQueueSubmitter::new(sq, None);
    assert!(sub.push(SqEntry::nop(), 1).is_ok());
    // A batch of two cannot fit beside the queued entry: it spills whole.
    let entries = vec![SqEntry::nop(), SqEntry::nop()];
    let data = vec![2u64, 3u64];
    assert!(sub.push_multiple(entries, data).is_ok());
    assert_eq!(sub.backlog_len(), 1);
    assert_eq!(sub.inflight(), 1);
}

#[test]
fn drain_backlog_stops_at_a_full_queue() {
    let sq = SubmissionQueue::new(2);
    let mut sub: SubmissionQueueSubmitter<u64> = SubmissionQueueSubmitter::new(sq, None);
    assert!(sub.push(SqEntry::nop(), 1).is_ok());
    assert!(sub.push(SqEntry::nop(), 2).is_ok());
    assert!(sub.push(SqEntry::nop(), 3).is_ok());
    assert!(sub.push(SqEntry::nop(), 4).is_ok());
    assert_eq!(sub.backlog_len(), 2);
    // No room yet: nothing moves.
    assert_eq!(sub.drain_backlog(), 0);
    assert_eq!(sub.backlog_len(), 2);
    assert_eq!(sub.inflight(), 2);
}

#[test]
fn push_slice_behaves_like_push_multiple() {
    let sq = SubmissionQueue::new(4);
    let mut sub: SubmissionQueueSubmitter<u64> = SubmissionQueueSubmitter::new(sq, None);
    let entries = vec![SqEntry::nop(), SqEntry::timeout(2)];
    let data = vec![5u64, 6u64];
    assert!(sub.push_slice(entries, data).is_ok());
    assert_eq!(sub.inflight(), 2);
    let raw = vec![SqEntry::nop(), SqEntry::nop()];
    assert!(sub.push_slice_raw(raw).is_ok());
    assert_eq!(sub.inflight(), 4);
}

#[test]
fn entry_builders_set_what_they_say() {
    let e = SqEntry::timeout(7).with_drain().with_user_data(99);
    assert_eq!(e.opcode, OpCode::Timeout { count: 7 });
    assert!(e.drain);
    assert_eq!(e.user_data, 99);
    let c = SqEntry::cancel_all();
    assert_eq!(c.opcode, OpCode::CancelAll);
    assert_eq!(c.user_data, 0);
}
