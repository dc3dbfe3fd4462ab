use httpqueue::codes::{
    classify, Outcome, ERROR_IO_PENDING, ERROR_MORE_DATA, ERROR_OPERATION_ABORTED,
};
use httpqueue::handle::HandleRef;
use httpqueue::operation::{OpEvent, OpState, PendingOperation};
use httpqueue::request::{requested_size, Buffer, Request, DEFAULT_RECEIVE_SIZE};

#[test]
fn classify_codes() {
    assert_eq!(classify(0), Outcome::Complete);
    assert_eq!(classify(ERROR_MORE_DATA), Outcome::MoreData);
    assert_eq!(classify(ERROR_OPERATION_ABORTED), Outcome::Cancelled);
    assert_eq!(classify(1236), Outcome::Failed(1236));
}

#[test]
fn sync_completion_resolves_once() {
    let mut op = PendingOperation::new(5, 64);
    assert!(op.issued(0, 12));
    assert_eq!(op.state, OpState::CompletedSync { code: 0, bytes: 12 });
    assert!(!op.must_wait());
    assert!(!op.notified(0, 12));
    assert!(!op.notified(ERROR_OPERATION_ABORTED, 0));
    assert_eq!(op.result(), Some((0, 12)));
}

#[test]
fn sync_failure_resolves() {
    let mut op = PendingOperation::new(0, 64);
    assert!(op.issued(1236, 0));
    assert_eq!(classify(op.result().unwrap().0), Outcome::Failed(1236));
}

#[test]
fn notification_may_overtake_return() {
    let mut op = PendingOperation::new(0, 64);
    assert!(op.notified(0, 40));
    assert!(!op.issued(ERROR_IO_PENDING, 0));
    assert_eq!(op.state, OpState::Completed { code: 0, bytes: 40 });
}

#[test]
fn events_resolve_exactly_once() {
    let mut op = PendingOperation::new(0, 64);
    let events = [
        OpEvent::Returned { code: ERROR_IO_PENDING, bytes: 0 },
        OpEvent::Notified { code: ERROR_MORE_DATA, bytes: 64 },
        OpEvent::Notified { code: 0, bytes: 10 },
        OpEvent::Notified { code: ERROR_OPERATION_ABORTED, bytes: 0 },
    ];
    let mut count = 0;
    for e in events {
        if op.observe(e) {
            count += 1;
        }
    }
    assert_eq!(count, 1);
    assert_eq!(op.result(), Some((ERROR_MORE_DATA, 64)));
}

#[test]
fn scenario_close_cancels_outstanding_body_receive() {
    let mut request = Request::new(HandleRef::new(70));
    let mut op = request.receive_data(42, Buffer::Slice(1024));
    assert_eq!(op.capacity, 1024);
    assert!(!op.issued(ERROR_IO_PENDING, 0));
    assert_eq!(request.close(), 70);
    assert!(request.cancelled);
    assert!(op.notified(ERROR_OPERATION_ABORTED, 0));
    assert_eq!(op.state, OpState::Cancelled { code: ERROR_OPERATION_ABORTED });
    assert_eq!(classify(op.result().unwrap().0), Outcome::Cancelled);
    assert_eq!(request.settle(&op), None);
    assert!(!request.handle.is_closed());
    assert_eq!(request.handle.release(), Some(70));
    assert!(request.handle.is_closed());
}

#[test]
fn handle_closes_once() {
    let mut h = HandleRef::new(9);
    h.acquire();
    assert_eq!(h.holders(), 2);
    assert_eq!(h.release(), None);
    assert_eq!(h.release(), Some(9));
    assert_eq!(h.close(), None);

    let mut g = HandleRef::new(8);
    g.acquire();
    assert_eq!(g.close(), Some(8));
    assert_eq!(g.close(), None);
    assert_eq!(g.release(), None);
    assert_eq!(g.release(), None);
}

#[test]
fn buffers() {
    assert_eq!(Buffer::Auto(16).capacity(), 16);
    assert_eq!(Buffer::Slice(32).capacity(), 32);
    assert_eq!(Buffer::Auto(3).allocate(), Some(vec![0u8, 0, 0]));
    assert_eq!(Buffer::Slice(3).allocate(), None);
    assert_eq!(requested_size(None), DEFAULT_RECEIVE_SIZE);
    assert_eq!(requested_size(None), 4096);
    assert_eq!(requested_size(Some(16)), 16);
}

#[test]
fn handle_sequence_closes_once() {
    let mut h = HandleRef::new(12);
    let mut closes = 0;
    h.acquire();
    h.acquire();
    if h.release().is_some() {
        closes += 1;
    }
    if h.close().is_some() {
        closes += 1;
    }
    if h.release().is_some() {
        closes += 1;
    }
    if h.close().is_some() {
        closes += 1;
    }
    if h.release().is_some() {
        closes += 1;
    }
    assert_eq!(closes, 1);
    assert_eq!(h.holders(), 0);
    assert!(h.is_closed());
}
