//! The process-wide configuration.
//!
//! Built once at startup from already-validated option values the binary
//! collected (flags and environment), never mutated, and shared read-only by
//! every session. The backend descriptor is resolved into its tagged variant
//! here, at construction, not re-parsed per connection.

use vstd::prelude::*;
use crate::target::{has_tls_scheme, parse_backend_target, BackendTarget};

verus! {

/// The connect deadline used when no timeout is configured, in milliseconds.
pub const DEFAULT_TIMEOUT_MS: u64 = 30000;

/// The immutable configuration of one proxy process. The server's credential
/// documents are loaded and checked separately, before the listener binds.
pub struct ProxyConfig {
    /// The address the listener binds.
    pub listen: String,
    /// The resolved backend target.
    pub target: BackendTarget,
    /// The deadline for establishing one backend connection, in milliseconds.
    pub timeout_ms: u64,
}

impl ProxyConfig {
    /// Builds the configuration from the collected option values: the
    /// backend descriptor is resolved by its scheme prefix, and a missing
    /// timeout falls back to the default.
    pub fn from_options(
        listen: String,
        backend: &str,
        backend_server_name: &str,
        timeout_ms: Option<u64>,
    ) -> (c: ProxyConfig)
        ensures
            c.listen == listen,
            has_tls_scheme(backend@) ==> (c.target matches BackendTarget::EncryptedInsecure {
                addr: a,
                server_name: n,
            } && a@ == backend@.skip(4) && n@ == backend_server_name@),
            !has_tls_scheme(backend@) ==> (c.target matches BackendTarget::Plain { addr: a }
                && a@ == backend@),
            c.timeout_ms == (match timeout_ms {
                Some(t) => t,
                None => DEFAULT_TIMEOUT_MS as u64,
            }),
    {
        let target = parse_backend_target(backend, backend_server_name);
        let t: u64 = match timeout_ms {
            Some(t) => t,
            None => DEFAULT_TIMEOUT_MS,
        };
        ProxyConfig { listen, target, timeout_ms: t }
    }
}

} // verus!
