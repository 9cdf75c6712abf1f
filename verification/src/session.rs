//! The per-session lifecycle.
//!
//! One session is the life of one accepted inbound connection: the inbound
//! TLS handshake, then the backend connector raced against a deadline, then
//! the bidirectional pump until either stream ends. The decisions of that
//! lifecycle stand here as a state machine; the surrounding binary performs
//! each returned action (handshake, connect, sleep, copy, close) and hands
//! the outcome back as the next event. Sessions share no mutable state: a
//! step is a function of one session's own state and event alone.

use vstd::prelude::*;
use crate::ProxyError;
use crate::pump::{transcript_after, Direction};

verus! {

/// Where one session stands in its lifecycle.
#[derive(Clone, Copy, Debug, PartialEq, Eq, Structural)]
pub enum SessionState {
    /// The inbound TLS handshake is running.
    Handshaking,
    /// The backend connector is racing the connect deadline.
    Connecting,
    /// Both streams are established and the pump is copying.
    Pumping,
    /// The session is over; `error` says why, or is `None` after a natural
    /// end-of-stream.
    Done { error: Option<ProxyError> },
}

/// What the binary reports back to a session.
#[derive(Clone, Copy, Debug, PartialEq, Eq, Structural)]
pub enum SessionEvent {
    /// The inbound handshake yielded a decrypted stream.
    HandshakeSucceeded,
    /// The inbound handshake failed.
    HandshakeFailed,
    /// The backend connector produced its stream before the deadline.
    BackendReady,
    /// The backend server name was rejected as a host identifier.
    BackendConfigInvalid,
    /// The backend transport connection could not be established.
    BackendConnectFailed,
    /// The outbound TLS handshake failed.
    BackendHandshakeFailed,
    /// The deadline elapsed before the connector completed.
    DeadlineElapsed,
    /// One pump direction observed end-of-stream.
    StreamEnded { dir: Direction },
    /// One pump direction observed an I/O error.
    StreamFailed { dir: Direction },
}

/// What the binary must do after a step.
#[derive(Clone, Copy, Debug, PartialEq, Eq, Structural)]
pub enum SessionAction {
    /// Start the backend connector and the deadline timer together.
    AwaitBackend,
    /// Start the bidirectional pump on the two streams.
    StartPump,
    /// Release the inbound stream — the only one the session holds; an
    /// in-flight connector attempt, if any, is abandoned and its eventual
    /// result discarded.
    CloseInbound,
    /// Release both streams.
    CloseBoth,
}

/// Which events a state can receive. Within one session the handshake
/// completes before the establisher begins, and the connector's outcome or
/// the deadline arrives before the pump starts; a finished session receives
/// nothing.
pub open spec fn event_enabled(s: SessionState, e: SessionEvent) -> bool {
    match s {
        SessionState::Handshaking => e is HandshakeSucceeded || e is HandshakeFailed,
        SessionState::Connecting => e is BackendReady || e is BackendConfigInvalid
            || e is BackendConnectFailed || e is BackendHandshakeFailed || e is DeadlineElapsed,
        SessionState::Pumping => e is StreamEnded || e is StreamFailed,
        SessionState::Done { .. } => false,
    }
}

/// The transition relation of one session: the next state and the action the
/// binary performs, or nothing when the event is not enabled in the state.
pub open spec fn spec_step(s: SessionState, e: SessionEvent) -> Option<
    (SessionState, SessionAction),
> {
    if !event_enabled(s, e) {
        None
    } else {
        Some(
            match e {
                SessionEvent::HandshakeSucceeded => (
                    SessionState::Connecting,
                    SessionAction::AwaitBackend,
                ),
                SessionEvent::HandshakeFailed => (
                    SessionState::Done { error: Some(ProxyError::Handshake) },
                    SessionAction::CloseInbound,
                ),
                SessionEvent::BackendReady => (SessionState::Pumping, SessionAction::StartPump),
                SessionEvent::BackendConfigInvalid => (
                    SessionState::Done { error: Some(ProxyError::Config) },
                    SessionAction::CloseInbound,
                ),
                SessionEvent::BackendConnectFailed => (
                    SessionState::Done { error: Some(ProxyError::Connect) },
                    SessionAction::CloseInbound,
                ),
                SessionEvent::BackendHandshakeFailed => (
                    SessionState::Done { error: Some(ProxyError::Handshake) },
                    SessionAction::CloseInbound,
                ),
                SessionEvent::DeadlineElapsed => (
                    SessionState::Done { error: Some(ProxyError::Timeout) },
                    SessionAction::CloseInbound,
                ),
                SessionEvent::StreamEnded { .. } => (
                    SessionState::Done { error: None },
                    SessionAction::CloseBoth,
                ),
                SessionEvent::StreamFailed { .. } => (
                    SessionState::Done { error: Some(ProxyError::Relay) },
                    SessionAction::CloseBoth,
                ),
            },
        )
    }
}

/// The state a fresh session starts in, as the binary accepts a connection.
pub fn session_start() -> (s: SessionState)
    ensures
        s == SessionState::Handshaking,
{
    SessionState::Handshaking
}

/// Advances one session by one event.
///
/// Exactly one outcome follows each event; there is no retry anywhere: every
/// failure is terminal for its session, and none of it touches any other
/// session or the listener.
pub fn session_step(s: SessionState, e: SessionEvent) -> (r: (SessionState, SessionAction))
    requires
        event_enabled(s, e),
    ensures
        spec_step(s, e) == Some(r),
{
    match e {
        SessionEvent::HandshakeSucceeded => (SessionState::Connecting, SessionAction::AwaitBackend),
        SessionEvent::HandshakeFailed => (
            SessionState::Done { error: Some(ProxyError::Handshake) },
            SessionAction::CloseInbound,
        ),
        SessionEvent::BackendReady => (SessionState::Pumping, SessionAction::StartPump),
        SessionEvent::BackendConfigInvalid => (
            SessionState::Done { error: Some(ProxyError::Config) },
            SessionAction::CloseInbound,
        ),
        SessionEvent::BackendConnectFailed => (
            SessionState::Done { error: Some(ProxyError::Connect) },
            SessionAction::CloseInbound,
        ),
        SessionEvent::BackendHandshakeFailed => (
            SessionState::Done { error: Some(ProxyError::Handshake) },
            SessionAction::CloseInbound,
        ),
        SessionEvent::DeadlineElapsed => (
            SessionState::Done { error: Some(ProxyError::Timeout) },
            SessionAction::CloseInbound,
        ),
        SessionEvent::StreamEnded { .. } => (
            SessionState::Done { error: None },
            SessionAction::CloseBoth,
        ),
        SessionEvent::StreamFailed { .. } => (
            SessionState::Done { error: Some(ProxyError::Relay) },
            SessionAction::CloseBoth,
        ),
    }
}

/// The moment the deadline timer fires, `timeout_ms` after the establisher
/// started at `now_ms`; clamped to the largest representable instant.
pub fn deadline_after(now_ms: u64, timeout_ms: u64) -> (r: u64)
    ensures
        now_ms + timeout_ms <= u64::MAX ==> r == now_ms + timeout_ms,
        now_ms + timeout_ms > u64::MAX ==> r == u64::MAX,
{
    if timeout_ms <= u64::MAX - now_ms {
        now_ms + timeout_ms
    } else {
        u64::MAX
    }
}

/// Whether the deadline has been reached at `now_ms`.
pub fn deadline_elapsed(now_ms: u64, deadline_ms: u64) -> (r: bool)
    ensures
        r == (now_ms >= deadline_ms),
{
    now_ms >= deadline_ms
}

/// Law (timeout enforcement): if the deadline elapses while the backend
/// connection is still being established, the session terminates with a
/// timeout failure — not a success, not a pump — and the inbound stream is
/// closed; the abandoned connector attempt is discarded with it.
pub proof fn lemma_timeout_enforcement()
    ensures
        spec_step(SessionState::Connecting, SessionEvent::DeadlineElapsed) == Some(
            (
                SessionState::Done { error: Some(ProxyError::Timeout) },
                SessionAction::CloseInbound,
            ),
        ),
{
}

/// Law (full-duplex teardown): when either pump direction observes
/// end-of-stream or an I/O error, the whole session finishes and both
/// streams are released at once — and a finished session takes no further
/// event, so neither direction lingers half-open.
pub proof fn lemma_full_duplex_teardown(dir: Direction)
    ensures
        spec_step(SessionState::Pumping, SessionEvent::StreamEnded { dir }) == Some(
            (SessionState::Done { error: None }, SessionAction::CloseBoth),
        ),
        spec_step(SessionState::Pumping, SessionEvent::StreamFailed { dir }) == Some(
            (SessionState::Done { error: Some(ProxyError::Relay) }, SessionAction::CloseBoth),
        ),
        forall|e: SessionEvent, err: Option<ProxyError>|
            !event_enabled(SessionState::Done { error: err }, e),
{
}

/// Law (resource release): a session owns its streams exclusively and
/// releases them on every exit path. Every transition that finishes a
/// session closes the inbound stream or both, and one out of the pump —
/// where both streams are held — always closes both.
pub proof fn lemma_streams_released_on_exit(s: SessionState, e: SessionEvent)
    requires
        event_enabled(s, e),
        spec_step(s, e) matches Some(r) && r.0 is Done,
    ensures
        spec_step(s, e) matches Some(r) && (r.1 is CloseInbound || r.1 is CloseBoth),
        s is Pumping ==> (spec_step(s, e) matches Some(r) && r.1 is CloseBoth),
{
}

/// Law (one terminal outcome, no retry): a finished session takes no
/// further event — every failure is terminal for its session, and nothing
/// is ever retried.
pub proof fn lemma_done_is_final(error: Option<ProxyError>, e: SessionEvent)
    ensures
        spec_step(SessionState::Done { error }, e) is None,
{
}

/// Law (session isolation): a session's step is a function of that session's
/// own state and event alone — sessions share nothing mutable — so however
/// one session fails, every concurrently pumping session still relays its
/// own chunks transparently.
pub proof fn lemma_session_isolation(
    failing: SessionState,
    fe: SessionEvent,
    other_transcript: Seq<u8>,
    other_chunks: Seq<Seq<u8>>,
)
    requires
        event_enabled(failing, fe),
    ensures
        spec_step(failing, fe) is Some,
        transcript_after(other_transcript, other_chunks) == other_transcript
            + other_chunks.flatten(),
{
    crate::pump::lemma_transparency(other_transcript, other_chunks);
}

} // verus!
