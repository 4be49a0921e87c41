//! Tests of the request/session lifecycle: exactly-once teardown, signal
//! before removal, idempotent close, the fixed version attribute.

use std::cell::Cell;
use std::rc::Rc;

use portal_core::request::Request;
use portal_core::session::Session;
use portal_core::transport::{BusEvent, CallError, Transport};

#[test]
fn close_runs_teardown_exactly_once() {
    let runs = Rc::new(Cell::new(0u32));
    let counter = Rc::clone(&runs);
    let mut session = Session::new(move || counter.set(counter.get() + 1));
    let mut bus = Transport::new();
    bus.register(7);
    assert!(bus.reachable(7));

    let r = session.handle_close(&mut bus, 7);
    assert_eq!(r, Ok(()));
    assert_eq!(runs.get(), 1);
    assert!(!bus.reachable(7));
    assert_eq!(
        bus.event_log(),
        &vec![
            BusEvent::ClosedSignal(7),
            BusEvent::Removed(7),
            BusEvent::TeardownRan(7),
        ]
    );
}

#[test]
fn closed_signal_comes_before_removal() {
    let mut session = Session::new(|| ());
    let mut bus = Transport::new();
    bus.register(3);
    session.handle_close(&mut bus, 3).unwrap();
    let log = bus.event_log();
    let signal_at = log
        .iter()
        .position(|e| *e == BusEvent::ClosedSignal(3))
        .unwrap();
    let removed_at = log.iter().position(|e| *e == BusEvent::Removed(3)).unwrap();
    assert!(signal_at < removed_at);
}

#[test]
fn second_close_is_object_not_found_and_keeps_teardown_at_one() {
    let runs = Rc::new(Cell::new(0u32));
    let counter = Rc::clone(&runs);
    let mut session = Session::new(move || counter.set(counter.get() + 1));
    let mut bus = Transport::new();
    bus.register(9);

    assert_eq!(session.handle_close(&mut bus, 9), Ok(()));
    assert_eq!(session.handle_close(&mut bus, 9), Err(CallError::UnknownObject));
    assert_eq!(runs.get(), 1);
    assert_eq!(bus.event_log().len(), 3);
}

#[test]
fn reentered_close_skips_the_consumed_callback() {
    let runs = Rc::new(Cell::new(0u32));
    let counter = Rc::clone(&runs);
    let mut session = Session::new(move || counter.set(counter.get() + 1));
    let mut bus = Transport::new();
    bus.register(4);

    // The close sequence itself, entered twice: the second entry finds the
    // callback consumed and repeats only the signal and the removal.
    session.close(&mut bus, 4);
    session.close(&mut bus, 4);
    assert_eq!(runs.get(), 1);
    assert_eq!(
        bus.event_log(),
        &vec![
            BusEvent::ClosedSignal(4),
            BusEvent::Removed(4),
            BusEvent::TeardownRan(4),
            BusEvent::ClosedSignal(4),
            BusEvent::Removed(4),
        ]
    );
}

#[test]
fn version_is_one_before_close_and_unreachable_after() {
    let mut session = Session::new(|| ());
    let mut bus = Transport::new();
    bus.register(2);

    assert_eq!(session.version(), 1);
    assert_eq!(session.handle_version(&bus, 2), Ok(1));

    session.handle_close(&mut bus, 2).unwrap();
    assert_eq!(session.version(), 1);
    assert_eq!(session.handle_version(&bus, 2), Err(CallError::UnknownObject));
}

#[test]
fn request_close_never_fails_however_often_it_is_called() {
    let request = Request;
    for _ in 0..10 {
        request.close();
    }
}

#[test]
fn closing_one_session_leaves_its_siblings_registered() {
    let mut session = Session::new(|| ());
    let mut bus = Transport::new();
    bus.register(1);
    bus.register(2);
    session.handle_close(&mut bus, 1).unwrap();
    assert!(!bus.reachable(1));
    assert!(bus.reachable(2));
}

#[test]
fn unregistering_an_unknown_identity_is_absorbed() {
    let mut bus = Transport::new();
    bus.register(5);
    bus.unregister(11);
    assert!(bus.reachable(5));
    assert!(!bus.reachable(11));
    assert_eq!(bus.event_log(), &vec![BusEvent::Removed(11)]);
}
