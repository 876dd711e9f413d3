use dial_back::codec::encode_nonce;
use dial_back::exchange::{Exchange, StreamEvent};
use dial_back::pool::{CompletionResult, Pool};
use dial_back::IoErrorKind;

#[test]
fn rejection_at_capacity_returns_the_task() {
    let mut pool = Pool::new(100, 1);
    assert!(pool.try_push(1, 0, Exchange::new()).is_ok());
    let rejected = pool.try_push(2, 0, Exchange::new());
    assert!(rejected.is_err());
    assert_eq!(pool.in_flight(), 1);
    assert!(pool.contains_op(1));
    assert!(!pool.contains_op(2));
}

#[test]
fn completion_order_is_readiness_order_not_admission_order() {
    let mut pool = Pool::new(1000, 3);
    assert!(pool.try_push(1, 0, Exchange::new()).is_ok());
    assert!(pool.try_push(2, 0, Exchange::new()).is_ok());
    assert!(pool.try_push(3, 0, Exchange::new()).is_ok());

    // The second admitted operation finishes first.
    pool.deliver(2, StreamEvent::Data(encode_nonce(9)));
    pool.deliver(2, StreamEvent::CloseDone);

    assert_eq!(pool.poll(5), Some((2, CompletionResult::Success(9))));
    assert_eq!(pool.poll(5), None);
    assert_eq!(pool.in_flight(), 2);
}

#[test]
fn poll_reports_each_completion_exactly_once() {
    let mut pool = Pool::new(1000, 2);
    assert!(pool.try_push(7, 0, Exchange::new()).is_ok());
    pool.deliver(7, StreamEvent::Data(encode_nonce(5)));
    pool.deliver(7, StreamEvent::CloseDone);

    assert_eq!(pool.poll(1), Some((7, CompletionResult::Success(5))));
    // Polling after completion never re-reports it.
    assert_eq!(pool.poll(1), None);
    assert_eq!(pool.poll(u64::MAX), None);
    assert!(!pool.contains_op(7));
}

#[test]
fn expired_operation_is_reported_as_timeout_and_evicted() {
    let mut pool = Pool::new(100, 1);
    assert!(pool.try_push(4, 50, Exchange::new()).is_ok());
    // Before the deadline nothing is ready.
    assert_eq!(pool.poll(149), None);
    assert_eq!(pool.in_flight(), 1);
    // At the deadline the operation is evicted, freeing its slot.
    assert_eq!(pool.poll(150), Some((4, CompletionResult::Timeout)));
    assert_eq!(pool.in_flight(), 0);
    assert!(pool.try_push(5, 150, Exchange::new()).is_ok());
}

#[test]
fn failure_keeps_the_streams_own_error() {
    let mut pool = Pool::new(100, 1);
    assert!(pool.try_push(1, 0, Exchange::new()).is_ok());
    pool.deliver(1, StreamEvent::Error(IoErrorKind::ConnectionReset));
    assert_eq!(
        pool.poll(10),
        Some((1, CompletionResult::Failure(IoErrorKind::ConnectionReset)))
    );
}

#[test]
fn events_for_unknown_operations_change_nothing() {
    let mut pool = Pool::new(100, 2);
    assert!(pool.try_push(1, 0, Exchange::new()).is_ok());
    pool.deliver(99, StreamEvent::Data(encode_nonce(3)));
    pool.deliver(99, StreamEvent::CloseDone);
    assert_eq!(pool.in_flight(), 1);
    assert_eq!(pool.poll(10), None);
}

#[test]
fn completed_operation_past_deadline_still_reports_its_outcome() {
    let mut pool = Pool::new(10, 1);
    assert!(pool.try_push(1, 0, Exchange::new()).is_ok());
    pool.deliver(1, StreamEvent::Data(encode_nonce(11)));
    pool.deliver(1, StreamEvent::CloseDone);
    // Deadline long passed, but the exchange finished: its result wins.
    assert_eq!(pool.poll(1000), Some((1, CompletionResult::Success(11))));
}
