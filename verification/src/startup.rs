//! The startup sequence and the accept loop.
//!
//! The process loads its credentials, binds the listen address exactly once,
//! and then accepts inbound connections without bound, spawning one
//! independent session per accepted socket. Unusable credentials, a failed
//! bind, and a failed accept are each fatal to the whole process; in
//! particular, bad credentials end the process before any socket is bound.
//! The decisions stand here as a state machine; the surrounding binary
//! performs each action and hands the outcome back as the next event.

use vstd::prelude::*;
use crate::ProxyError;

verus! {

/// Where the process stands, from startup to the accept loop.
#[derive(Clone, Copy, Debug, PartialEq, Eq, Structural)]
pub enum StartupState {
    /// The certificate and key documents are being loaded and checked.
    LoadingCredentials,
    /// The listen address is being bound.
    Binding,
    /// The listener accepts connections; this state persists for the rest of
    /// a healthy process's life.
    Accepting,
    /// The process is exiting; `error` says why. A healthy accept loop never
    /// ends, so exiting always carries an error.
    Exited { error: ProxyError },
}

/// What the binary reports back to the startup sequence.
#[derive(Clone, Copy, Debug, PartialEq, Eq, Structural)]
pub enum StartupEvent {
    /// The credentials loaded and the server configuration was derived.
    CredentialsLoaded,
    /// A credential document was missing, malformed or unusable.
    CredentialsRejected,
    /// The listen address was bound.
    BindSucceeded,
    /// The listen address could not be bound.
    BindFailed,
    /// The listener accepted one inbound socket.
    InboundAccepted,
    /// The listener failed while accepting. Transient and permanent causes
    /// are deliberately not distinguished: either ends the process.
    AcceptFailed,
}

/// What the binary must do after a step.
#[derive(Clone, Copy, Debug, PartialEq, Eq, Structural)]
pub enum StartupAction {
    /// Bind the configured listen address.
    BindListener,
    /// Wait for the next inbound connection.
    AcceptNext,
    /// Spawn one independent session for the accepted socket, then keep
    /// accepting.
    SpawnSession,
    /// Exit the process with a non-zero status.
    ExitProcess,
}

/// Which events a state can receive: each state waits for the outcome of the
/// one action it asked for, and an exited process receives nothing.
pub open spec fn startup_event_enabled(s: StartupState, e: StartupEvent) -> bool {
    match s {
        StartupState::LoadingCredentials => e is CredentialsLoaded || e is CredentialsRejected,
        StartupState::Binding => e is BindSucceeded || e is BindFailed,
        StartupState::Accepting => e is InboundAccepted || e is AcceptFailed,
        StartupState::Exited { .. } => false,
    }
}

/// The transition relation of the startup sequence, or nothing when the
/// event is not enabled in the state.
pub open spec fn spec_startup_step(s: StartupState, e: StartupEvent) -> Option<
    (StartupState, StartupAction),
> {
    if !startup_event_enabled(s, e) {
        None
    } else {
        Some(
            match e {
                StartupEvent::CredentialsLoaded => (
                    StartupState::Binding,
                    StartupAction::BindListener,
                ),
                StartupEvent::CredentialsRejected => (
                    StartupState::Exited { error: ProxyError::Config },
                    StartupAction::ExitProcess,
                ),
                StartupEvent::BindSucceeded => (StartupState::Accepting, StartupAction::AcceptNext),
                StartupEvent::BindFailed => (
                    StartupState::Exited { error: ProxyError::Bind },
                    StartupAction::ExitProcess,
                ),
                StartupEvent::InboundAccepted => (
                    StartupState::Accepting,
                    StartupAction::SpawnSession,
                ),
                StartupEvent::AcceptFailed => (
                    StartupState::Exited { error: ProxyError::Accept },
                    StartupAction::ExitProcess,
                ),
            },
        )
    }
}

/// The state a fresh process starts in.
pub fn startup_start() -> (s: StartupState)
    ensures
        s == StartupState::LoadingCredentials,
{
    StartupState::LoadingCredentials
}

/// Advances the startup sequence by one event.
pub fn startup_step(s: StartupState, e: StartupEvent) -> (r: (StartupState, StartupAction))
    requires
        startup_event_enabled(s, e),
    ensures
        spec_startup_step(s, e) == Some(r),
{
    match e {
        StartupEvent::CredentialsLoaded => (StartupState::Binding, StartupAction::BindListener),
        StartupEvent::CredentialsRejected => (
            StartupState::Exited { error: ProxyError::Config },
            StartupAction::ExitProcess,
        ),
        StartupEvent::BindSucceeded => (StartupState::Accepting, StartupAction::AcceptNext),
        StartupEvent::BindFailed => (
            StartupState::Exited { error: ProxyError::Bind },
            StartupAction::ExitProcess,
        ),
        StartupEvent::InboundAccepted => (StartupState::Accepting, StartupAction::SpawnSession),
        StartupEvent::AcceptFailed => (
            StartupState::Exited { error: ProxyError::Accept },
            StartupAction::ExitProcess,
        ),
    }
}

/// The actions a run of the startup sequence performs on a sequence of
/// events, in order; an event that is not enabled performs none.
pub open spec fn startup_run(s: StartupState, events: Seq<StartupEvent>) -> Seq<StartupAction>
    decreases events.len(),
{
    if events.len() == 0 {
        Seq::empty()
    } else {
        match spec_startup_step(s, events[0]) {
            Some(r) => seq![r.1] + startup_run(r.0, events.skip(1)),
            None => startup_run(s, events.skip(1)),
        }
    }
}

/// An exited process performs nothing more, whatever events still arrive.
pub proof fn lemma_exited_is_final(error: ProxyError, events: Seq<StartupEvent>)
    ensures
        startup_run(StartupState::Exited { error }, events) == Seq::<StartupAction>::empty(),
    decreases events.len(),
{
    if events.len() > 0 {
        lemma_exited_is_final(error, events.skip(1));
    }
}

/// Law (fatal startup, credentials): an unparsable certificate or key
/// document makes the whole run exit the process and do nothing else — in
/// particular, no socket is ever bound.
pub proof fn lemma_fatal_startup_credentials(rest: Seq<StartupEvent>)
    ensures
        startup_run(
            StartupState::LoadingCredentials,
            seq![StartupEvent::CredentialsRejected] + rest,
        ) == seq![StartupAction::ExitProcess],
{
    let events = seq![StartupEvent::CredentialsRejected] + rest;
    assert(events[0] == StartupEvent::CredentialsRejected);
    assert(events.skip(1) =~= rest);
    lemma_exited_is_final(ProxyError::Config, rest);
    assert(startup_run(StartupState::LoadingCredentials, events) =~= seq![
        StartupAction::ExitProcess,
    ]);
}

/// Law (fatal startup, bind): with valid credentials but a listen address
/// that cannot be bound, the whole run is the bind attempt and the process
/// exit — the listener never accepts.
pub proof fn lemma_fatal_startup_bind(rest: Seq<StartupEvent>)
    ensures
        startup_run(
            StartupState::LoadingCredentials,
            seq![StartupEvent::CredentialsLoaded, StartupEvent::BindFailed] + rest,
        ) == seq![StartupAction::BindListener, StartupAction::ExitProcess],
{
    let events = seq![StartupEvent::CredentialsLoaded, StartupEvent::BindFailed] + rest;
    let tail = seq![StartupEvent::BindFailed] + rest;
    assert(events[0] == StartupEvent::CredentialsLoaded);
    assert(events.skip(1) =~= tail);
    assert(tail[0] == StartupEvent::BindFailed);
    assert(tail.skip(1) =~= rest);
    lemma_exited_is_final(ProxyError::Bind, rest);
    assert(startup_run(StartupState::Binding, tail) =~= seq![StartupAction::ExitProcess]);
    assert(startup_run(StartupState::LoadingCredentials, events) =~= seq![
        StartupAction::BindListener,
        StartupAction::ExitProcess,
    ]);
}

} // verus!
