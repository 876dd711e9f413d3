use dial_back::codec::encode_nonce;
use dial_back::exchange::StreamEvent;
use dial_back::handler::{ConnectionEvent, Handler};
use dial_back::IoErrorKind;

#[test]
fn capacity_bounds_concurrent_admissions() {
    // More negotiation successes than slots: the excess is dropped with no
    // upward event.
    let mut h = Handler::new(100, 2);
    for id in 0..5u64 {
        h.on_connection_event(ConnectionEvent::FullyNegotiatedInbound { id }, 0);
    }
    assert_eq!(h.pending(), 2);
    assert!(h.is_pending(0));
    assert!(h.is_pending(1));
    assert!(!h.is_pending(2));
    // Nothing is ready, so the dropped streams surface nothing.
    assert_eq!(h.poll(0), None);
}

#[test]
fn failed_negotiation_is_isolated() {
    let mut h = Handler::new(100, 2);
    h.on_connection_event(ConnectionEvent::ListenUpgradeError, 0);
    assert_eq!(h.pending(), 0);
    assert_eq!(h.poll(0), None);

    // Also after an admission: a later failed negotiation changes nothing.
    h.on_connection_event(ConnectionEvent::FullyNegotiatedInbound { id: 1 }, 0);
    h.on_connection_event(ConnectionEvent::ListenUpgradeError, 1);
    assert_eq!(h.pending(), 1);
    assert_eq!(h.poll(1), None);
}

#[test]
fn other_connection_events_are_ignored() {
    let mut h = Handler::new(100, 2);
    h.on_connection_event(ConnectionEvent::Other, 0);
    h.on_behaviour_event(());
    assert_eq!(h.pending(), 0);
    assert_eq!(h.poll(0), None);
}

#[test]
fn success_is_reported_exactly_once() {
    let mut h = Handler::new(100, 2);
    h.on_connection_event(ConnectionEvent::FullyNegotiatedInbound { id: 1 }, 0);
    h.deliver(1, StreamEvent::Data(encode_nonce(42)));
    h.deliver(1, StreamEvent::CloseDone);
    assert_eq!(h.poll(1), Some(Ok(42)));
    assert_eq!(h.poll(1), None);
    assert_eq!(h.poll(u64::MAX), None);
}

#[test]
fn read_failure_is_reported_upward_unmodified() {
    let mut h = Handler::new(100, 2);
    h.on_connection_event(ConnectionEvent::FullyNegotiatedInbound { id: 1 }, 0);
    h.deliver(1, StreamEvent::Data(vec![8, 1]));
    h.deliver(1, StreamEvent::Eof);
    assert_eq!(h.poll(1), Some(Err(IoErrorKind::UnexpectedEof)));
    assert_eq!(h.poll(1), None);
}

#[test]
fn timeout_is_enforced_and_frees_a_slot() {
    let mut h = Handler::new(100, 1);
    h.on_connection_event(ConnectionEvent::FullyNegotiatedInbound { id: 1 }, 0);
    assert_eq!(h.poll(99), None);
    assert_eq!(h.poll(100), Some(Err(IoErrorKind::TimedOut)));
    assert_eq!(h.pending(), 0);
    h.on_connection_event(ConnectionEvent::FullyNegotiatedInbound { id: 2 }, 100);
    assert_eq!(h.pending(), 1);
}

#[test]
fn concurrency_scenario_two_stalling_one_late() {
    // capacity = 2, timeout = 100 ms: the first two admissions stall
    // forever and fill the pool, so the third is rejected at admission.
    let mut h = Handler::new(100, 2);
    h.on_connection_event(ConnectionEvent::FullyNegotiatedInbound { id: 1 }, 0);
    h.on_connection_event(ConnectionEvent::FullyNegotiatedInbound { id: 2 }, 0);
    h.on_connection_event(ConnectionEvent::FullyNegotiatedInbound { id: 3 }, 0);
    assert_eq!(h.pending(), 2);
    assert!(!h.is_pending(3));

    // The rejected stream's message arrives at 10 ms but nobody is reading.
    h.deliver(3, StreamEvent::Data(encode_nonce(7)));
    h.deliver(3, StreamEvent::CloseDone);
    assert_eq!(h.poll(10), None);

    // After 100 ms both stalling operations report a timeout, freeing slots.
    assert_eq!(h.poll(100), Some(Err(IoErrorKind::TimedOut)));
    assert_eq!(h.poll(100), Some(Err(IoErrorKind::TimedOut)));
    assert_eq!(h.poll(100), None);
    assert_eq!(h.pending(), 0);
}

#[test]
fn keep_alive_is_never_requested() {
    let h = Handler::new(100, 2);
    assert!(!h.connection_keep_alive());
    let mut h = h;
    h.on_connection_event(ConnectionEvent::FullyNegotiatedInbound { id: 1 }, 0);
    assert!(!h.connection_keep_alive());
}
