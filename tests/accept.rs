use std::io::ErrorKind;
use tls_proxy::listener::{is_connection_error, AcceptStep, ErrorClass, Incoming, PollAction};
use tls_proxy::tls::{AcceptEvent, AcceptPoll, AcceptState};

#[test]
fn new_loop_pauses_a_quarter_second() {
    let inc = Incoming::new(7u32);
    assert_eq!(inc.sleep_on_errors(), Some(250));
    assert_eq!(inc.pending_error_delay(), None);
    assert_eq!(*inc.listener(), 7);
}

#[test]
fn sleep_on_errors_is_configurable() {
    let mut inc = Incoming::new(());
    inc.set_sleep_on_errors(Some(1000));
    assert_eq!(inc.sleep_on_errors(), Some(1000));
    inc.set_sleep_on_errors(None);
    assert_eq!(inc.sleep_on_errors(), None);
}

#[test]
fn connection_errors_are_recognised() {
    assert!(is_connection_error(ErrorKind::ConnectionRefused));
    assert!(is_connection_error(ErrorKind::ConnectionAborted));
    assert!(is_connection_error(ErrorKind::ConnectionReset));
    assert!(!is_connection_error(ErrorKind::Other));
    assert!(!is_connection_error(ErrorKind::OutOfMemory));
    assert!(!is_connection_error(ErrorKind::WouldBlock));
}

#[test]
fn reset_burst_retries_without_delay() {
    let mut inc = Incoming::new(());
    for _ in 0..100 {
        assert_eq!(inc.on_accept_error(ErrorKind::ConnectionReset), AcceptStep::Retry);
        assert_eq!(inc.pending_error_delay(), None);
        assert_eq!(inc.poll_action(), PollAction::Accept);
    }
}

#[test]
fn configured_pause_is_used() {
    let mut inc = Incoming::new(());
    inc.set_sleep_on_errors(Some(40));
    assert_eq!(inc.on_accept_error(ErrorKind::OutOfMemory), AcceptStep::Wait(40));
    assert_eq!(inc.pending_error_delay(), Some(40));
}

#[test]
fn resource_error_waits_once() {
    let mut inc = Incoming::new(());
    assert_eq!(inc.classify(ErrorKind::Other), ErrorClass::ResourceExhaustion);
    assert_eq!(
        inc.on_accept_error(ErrorKind::Other),
        AcceptStep::Wait(250)
    );
    assert_eq!(inc.pending_error_delay(), Some(250));
    assert_eq!(inc.poll_action(), PollAction::WaitTimer);
    inc.on_delay_elapsed();
    assert_eq!(inc.poll_action(), PollAction::Accept);
    assert_eq!(inc.pending_error_delay(), None);
    assert_eq!(inc.on_accept_error(ErrorKind::ConnectionAborted), AcceptStep::Retry);
    assert_eq!(inc.pending_error_delay(), None);
}

#[test]
fn without_backoff_errors_are_fatal() {
    let mut inc = Incoming::new(());
    inc.set_sleep_on_errors(None);
    assert_eq!(inc.classify(ErrorKind::Other), ErrorClass::Fatal);
    assert_eq!(inc.on_accept_error(ErrorKind::Other), AcceptStep::Fail);
    assert_eq!(inc.pending_error_delay(), None);
    assert_eq!(inc.classify(ErrorKind::ConnectionReset), ErrorClass::Transient);
    assert_eq!(inc.on_accept_error(ErrorKind::ConnectionReset), AcceptStep::Retry);
}

#[test]
fn handshake_state_machine_runs_one_handshake() {
    let s: AcceptState<&str> = AcceptState::new();
    assert!(s.is_listening());
    let (s, p) = s.step::<Result<u8, ()>>(AcceptEvent::RawPending);
    assert!(matches!(p, AcceptPoll::Pending));
    assert!(s.is_listening());
    let (s, p) = s.step::<Result<u8, ()>>(AcceptEvent::RawAccepted("hs"));
    assert!(matches!(p, AcceptPoll::Again));
    assert!(matches!(s, AcceptState::Accepting("hs")));
    let (s, p) = s.step::<Result<u8, ()>>(AcceptEvent::HandshakePending);
    assert!(matches!(p, AcceptPoll::Pending));
    assert!(!s.is_listening());
    let (s, p) = s.step(AcceptEvent::HandshakeDone(Ok::<u8, ()>(5)));
    assert!(matches!(p, AcceptPoll::Ready(Ok(5))));
    assert!(s.is_listening());
    let (s, p) = s.step(AcceptEvent::RawFailed(Err::<u8, ()>(())));
    assert!(matches!(p, AcceptPoll::Ready(Err(()))));
    assert!(s.is_listening());
    let (s, p) = s.step::<Result<u8, ()>>(AcceptEvent::RawAccepted("next"));
    assert!(matches!(p, AcceptPoll::Again));
    let (s, p) = s.step(AcceptEvent::HandshakeDone(Err::<u8, ()>(())));
    assert!(matches!(p, AcceptPoll::Ready(Err(()))));
    assert!(s.is_listening());
}
