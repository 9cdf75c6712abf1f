//! Core logic of a TLS re-encryption proxy.
//!
//! The proxy terminates an inbound TLS connection under its own certificate
//! identity, establishes a second, independently encrypted (or plaintext)
//! connection to a backend, and relays bytes transparently in both directions.
//! This crate holds the decision logic of that lifecycle: resolving the
//! backend target from its descriptor, loading the server's credentials,
//! the always-accept backend trust policy, the per-session state machine
//! with its connect deadline, the byte pump, and the startup sequence.
//! The surrounding binary performs the socket and timer work and feeds the
//! outcomes back in as events.

use vstd::prelude::*;

pub mod config;
pub mod credentials;
pub mod pump;
pub mod session;
pub mod startup;
pub mod target;
pub mod trust;

verus! {

/// The error taxonomy of the proxy.
///
/// `Bind` and `Accept` always end the whole process, as does `Config` when it
/// is raised at startup for unusable credentials; a `Config` error from a
/// backend server name rejected at first use, and every other error, end only
/// the session that raised them.
#[derive(Clone, Copy, Debug, PartialEq, Eq, Structural)]
pub enum ProxyError {
    /// Malformed backend descriptor or server name, or unusable credentials.
    Config,
    /// The listen address could not be bound.
    Bind,
    /// The listening socket failed while accepting.
    Accept,
    /// A TLS handshake failed, inbound or outbound.
    Handshake,
    /// The backend transport connection could not be established.
    Connect,
    /// The backend connection was not established before the deadline.
    Timeout,
    /// An I/O failure while relaying bytes.
    Relay,
}

/// Whether an error raised while sessions run ends the whole process rather
/// than one session. Startup-time failures never reach this question: the
/// startup sequence exits the process on any of them.
pub open spec fn spec_fatal_for_process(e: ProxyError) -> bool {
    e is Bind || e is Accept
}

/// Classifies an error raised while sessions run: `true` means the process
/// must exit, `false` means only the session that raised it terminates.
pub fn fatal_for_process(e: &ProxyError) -> (r: bool)
    ensures
        r == spec_fatal_for_process(*e),
{
    match e {
        ProxyError::Bind => true,
        ProxyError::Accept => true,
        _ => false,
    }
}

} // verus!
