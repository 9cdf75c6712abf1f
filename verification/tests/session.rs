use retls::pump::{Direction, PumpState, ShutdownCause};
use retls::session::{
    deadline_after, deadline_elapsed, session_start, session_step, SessionAction, SessionEvent,
    SessionState,
};
use retls::ProxyError;

#[test]
fn lifecycle_of_a_successful_session() {
    let s = session_start();
    assert_eq!(s, SessionState::Handshaking);
    let (s, a) = session_step(s, SessionEvent::HandshakeSucceeded);
    assert_eq!(s, SessionState::Connecting);
    assert_eq!(a, SessionAction::AwaitBackend);
    let (s, a) = session_step(s, SessionEvent::BackendReady);
    assert_eq!(s, SessionState::Pumping);
    assert_eq!(a, SessionAction::StartPump);
    let (s, a) = session_step(
        s,
        SessionEvent::StreamEnded { dir: Direction::BackendToClient },
    );
    assert_eq!(s, SessionState::Done { error: None });
    assert_eq!(a, SessionAction::CloseBoth);
}

#[test]
fn handshake_failure_closes_the_raw_socket() {
    let (s, a) = session_step(SessionState::Handshaking, SessionEvent::HandshakeFailed);
    assert_eq!(s, SessionState::Done { error: Some(ProxyError::Handshake) });
    assert_eq!(a, SessionAction::CloseInbound);
}

#[test]
fn timeout_terminates_the_session() {
    let (s, a) = session_step(SessionState::Connecting, SessionEvent::DeadlineElapsed);
    assert_eq!(s, SessionState::Done { error: Some(ProxyError::Timeout) });
    assert_eq!(a, SessionAction::CloseInbound);
}

#[test]
fn connector_failures_terminate_the_session() {
    let (s, a) = session_step(SessionState::Connecting, SessionEvent::BackendConnectFailed);
    assert_eq!(s, SessionState::Done { error: Some(ProxyError::Connect) });
    assert_eq!(a, SessionAction::CloseInbound);
    let (s, a) = session_step(SessionState::Connecting, SessionEvent::BackendHandshakeFailed);
    assert_eq!(s, SessionState::Done { error: Some(ProxyError::Handshake) });
    assert_eq!(a, SessionAction::CloseInbound);
    let (s, a) = session_step(SessionState::Connecting, SessionEvent::BackendConfigInvalid);
    assert_eq!(s, SessionState::Done { error: Some(ProxyError::Config) });
    assert_eq!(a, SessionAction::CloseInbound);
}

#[test]
fn full_duplex_teardown_on_either_direction() {
    for dir in [Direction::ClientToBackend, Direction::BackendToClient] {
        let (s, a) = session_step(SessionState::Pumping, SessionEvent::StreamEnded { dir });
        assert_eq!(s, SessionState::Done { error: None });
        assert_eq!(a, SessionAction::CloseBoth);
        let (s, a) = session_step(SessionState::Pumping, SessionEvent::StreamFailed { dir });
        assert_eq!(s, SessionState::Done { error: Some(ProxyError::Relay) });
        assert_eq!(a, SessionAction::CloseBoth);
    }
}

#[test]
fn pump_relays_bytes_unchanged() {
    let mut pump = PumpState::start();
    assert!(pump.running);
    let out = pump.forward(Direction::ClientToBackend, b"GET / HTTP/1.1\r\n".to_vec());
    assert_eq!(out, b"GET / HTTP/1.1\r\n".to_vec());
    let out = pump.forward(Direction::BackendToClient, b"200 OK".to_vec());
    assert_eq!(out, b"200 OK".to_vec());
    let out = pump.forward(Direction::ClientToBackend, vec![0u8, 255, 7, 7]);
    assert_eq!(out, vec![0u8, 255, 7, 7]);
    // A natural end-of-stream ends the session without an error...
    let r = pump.close(Direction::ClientToBackend, ShutdownCause::EndOfStream);
    assert_eq!(r, None);
    // ...and stops both directions at once.
    assert!(!pump.running);
}

#[test]
fn pump_reports_relay_errors() {
    let mut pump = PumpState::start();
    let r = pump.close(Direction::BackendToClient, ShutdownCause::IoError);
    assert_eq!(r, Some(ProxyError::Relay));
    assert!(!pump.running);
}

#[test]
fn failing_session_leaves_another_session_transparent() {
    // One session whose backend is unreachable...
    let (failed, a) = session_step(SessionState::Connecting, SessionEvent::BackendConnectFailed);
    assert_eq!(failed, SessionState::Done { error: Some(ProxyError::Connect) });
    assert_eq!(a, SessionAction::CloseInbound);
    // ...while another session keeps relaying its own bytes unchanged.
    let mut pump = PumpState::start();
    let out = pump.forward(Direction::ClientToBackend, b"payload".to_vec());
    assert_eq!(out, b"payload".to_vec());
    assert!(pump.running);
}

#[test]
fn deadline_arithmetic() {
    assert_eq!(deadline_after(100, 30000), 30100);
    assert_eq!(deadline_after(u64::MAX - 5, 10), u64::MAX);
    assert!(!deadline_elapsed(30099, 30100));
    assert!(deadline_elapsed(30100, 30100));
    assert!(deadline_elapsed(30101, 30100));
}
