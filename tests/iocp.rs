use winasync::iocp::{CompletionPort, OverlappedWrap, SlotPhase, Submission};
use winasync::{OpPoll, ProtocolError};

#[test]
fn synchronous_read_completes_without_suspending() {
    let mut port = CompletionPort::new();
    let op = port.begin_op();
    assert_eq!(port.submitted(&op, Submission::Completed), Ok(()));
    // the dispatcher reports synchronous completions too
    assert_eq!(port.on_completion(op.get(), 0, 1024), None);
    assert!(matches!(port.poll(&op, 1), OpPoll::Ready(Ok(1024))));
    assert_eq!(port.phase(op.get()), Some(SlotPhase::Free));
}

#[test]
fn pending_read_resumes_awaiting_task() {
    let mut port = CompletionPort::new();
    let op = port.begin_op();
    assert_eq!(port.submitted(&op, Submission::Pending), Ok(()));
    assert!(matches!(port.poll(&op, 77), OpPoll::Pending));
    assert_eq!(port.on_completion(op.get(), 0, 512), Some(77));
    assert!(matches!(port.poll(&op, 77), OpPoll::Ready(Ok(512))));
}

#[test]
fn distinct_records_wake_only_their_own_task() {
    let mut port = CompletionPort::new();
    let mut ops = Vec::new();
    for i in 0..8u64 {
        let op = port.begin_op();
        assert_eq!(op.get(), i as usize);
        port.submitted(&op, Submission::Pending).unwrap();
        assert!(matches!(port.poll(&op, 100 + i), OpPoll::Pending));
        ops.push(op);
    }
    for (i, op) in ops.iter().enumerate().rev() {
        let woken = port.on_completion(op.get(), 0, 10 * i as u32);
        assert_eq!(woken, Some(100 + i as u64));
        for (j, other) in ops.iter().enumerate() {
            if j < i {
                assert!(matches!(port.poll(other, 100 + j as u64), OpPoll::Pending));
            }
        }
    }
    for (i, op) in ops.iter().enumerate() {
        match port.poll(op, 0) {
            OpPoll::Ready(Ok(n)) => assert_eq!(n, 10 * i as u32),
            other => panic!("unexpected {:?}", other),
        }
    }
}

#[test]
fn completion_error_is_returned() {
    let mut port = CompletionPort::new();
    let op = port.begin_op();
    port.submitted(&op, Submission::Pending).unwrap();
    assert_eq!(port.on_completion(op.get(), 38, 0), None);
    assert!(matches!(port.poll(&op, 1), OpPoll::Ready(Err(38))));
}

#[test]
fn submission_failure_frees_record() {
    let mut port = CompletionPort::new();
    let op = port.begin_op();
    assert_eq!(port.submitted(&op, Submission::Failed(6)), Err(6));
    assert!(!port.is_active(&op));
    assert_eq!(port.phase(op.get()), Some(SlotPhase::Free));
    let again = port.begin_op();
    assert_eq!(again.get(), op.get());
    assert_eq!(port.len(), 1);
}

#[test]
fn lowest_free_slot_is_reused() {
    let mut port = CompletionPort::new();
    let a = port.begin_op();
    let b = port.begin_op();
    let c = port.begin_op();
    assert_eq!((a.get(), b.get(), c.get()), (0, 1, 2));
    port.on_completion(b.get(), 0, 3);
    assert!(matches!(port.poll(&b, 1), OpPoll::Ready(Ok(3))));
    let d = port.begin_op();
    assert_eq!(d.get(), 1);
    let e = port.begin_op();
    assert_eq!(e.get(), 3);
}

#[test]
fn abandoned_record_is_reclaimed_by_its_completion() {
    let mut port = CompletionPort::new();
    let op = port.begin_op();
    port.submitted(&op, Submission::Pending).unwrap();
    assert!(matches!(port.poll(&op, 5), OpPoll::Pending));
    port.abandon(&op);
    assert_eq!(port.phase(op.get()), Some(SlotPhase::Orphaned));
    // the slot is not handed out while the OS still holds it
    let other = port.begin_op();
    assert_eq!(other.get(), 1);
    assert_eq!(port.on_completion(op.get(), 0, 9), None);
    assert_eq!(port.phase(op.get()), Some(SlotPhase::Free));
}

#[test]
fn abandoning_a_completed_record_frees_it() {
    let mut port = CompletionPort::new();
    let op = port.begin_op();
    port.on_completion(op.get(), 0, 9);
    port.abandon(&op);
    assert_eq!(port.phase(op.get()), Some(SlotPhase::Free));
}

#[test]
fn unknown_and_repeated_completions_are_violations() {
    let mut port = CompletionPort::new();
    assert_eq!(port.completion_verdict(0), Err(ProtocolError::UnknownRecord));
    let op = port.begin_op();
    assert_eq!(port.completion_verdict(op.get()), Ok(()));
    assert_eq!(port.on_completion(op.get(), 0, 1), None);
    assert_eq!(port.completion_verdict(op.get()), Err(ProtocolError::AlreadyCompleted));
    assert!(matches!(port.poll(&op, 1), OpPoll::Ready(Ok(1))));
    assert_eq!(port.completion_verdict(op.get()), Err(ProtocolError::UnknownRecord));
}

#[test]
fn record_stores_error_or_length() {
    let mut ok = OverlappedWrap::new();
    assert!(!ok.is_completed());
    assert!(matches!(ok.poll(3), OpPoll::Pending));
    assert_eq!(ok.complete(0, 42), Some(3));
    assert_eq!(ok.get_ec(), None);
    assert_eq!(ok.get_len(), 42);
    let mut bad = OverlappedWrap::new();
    assert_eq!(bad.complete(995, 42), None);
    assert_eq!(bad.get_ec(), Some(995));
    assert_eq!(bad.get_len(), 0);
    assert!(matches!(bad.poll(1), OpPoll::Ready(Err(995))));
}

#[test]
fn submission_status_codes() {
    assert_eq!(Submission::from_status(0), Submission::Completed);
    assert_eq!(Submission::from_status(997), Submission::Pending);
    assert_eq!(Submission::from_status(6), Submission::Failed(6));
}
