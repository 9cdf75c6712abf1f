//! Backend target resolution.
//!
//! A backend descriptor is a plain address string, optionally prefixed with
//! the `tls:` scheme. The prefix selects the encrypted connector with the
//! intentionally permissive trust policy; any other descriptor selects the
//! plaintext connector. The descriptor is resolved once, at configuration
//! construction, into a tagged variant, not re-parsed per connection.

use vstd::prelude::*;
use crate::ProxyError;

verus! {

/// The resolved backend target: exactly one variant is active per
/// configuration, chosen by the scheme prefix of the descriptor.
#[derive(Clone, Debug, PartialEq, Eq)]
pub enum BackendTarget {
    /// Connect over the raw transport to `addr`.
    Plain { addr: String },
    /// Connect over the raw transport to `addr`, then run a client-side TLS
    /// handshake presenting `server_name` as the negotiation hint, with a
    /// verifier that accepts any backend certificate.
    EncryptedInsecure { addr: String, server_name: String },
}

/// Whether a backend descriptor carries the encrypted scheme prefix `tls:`.
pub open spec fn has_tls_scheme(s: Seq<char>) -> bool {
    s.len() >= 4 && s[0] == 't' && s[1] == 'l' && s[2] == 's' && s[3] == ':'
}

/// Resolves a backend descriptor and server-name hint into a target.
///
/// A descriptor with the `tls:` prefix yields the encrypted variant, with the
/// prefix stripped from the address; any other descriptor yields the plain
/// variant with the address unchanged. The server-name hint is only retained
/// for the encrypted variant, where the outbound handshake presents it.
pub fn parse_backend_target(addr: &str, server_name: &str) -> (t: BackendTarget)
    ensures
        has_tls_scheme(addr@) ==> (t matches BackendTarget::EncryptedInsecure { addr: a, server_name: n }
            && a@ == addr@.skip(4) && n@ == server_name@),
        !has_tls_scheme(addr@) ==> (t matches BackendTarget::Plain { addr: a } && a@ == addr@),
{
    let n: usize = addr.unicode_len();
    if n >= 4 && addr.get_char(0) == 't' && addr.get_char(1) == 'l' && addr.get_char(2) == 's'
        && addr.get_char(3) == ':' {
        let stripped = addr.substring_char(4, n);
        assert(stripped@ =~= addr@.skip(4));
        BackendTarget::EncryptedInsecure { addr: stripped.to_owned(), server_name: server_name.to_owned() }
    } else {
        BackendTarget::Plain { addr: addr.to_owned() }
    }
}

/// Whether a string is a syntactically valid host identifier for the
/// outbound handshake: a DNS name or an IP address.
pub uninterp spec fn valid_server_name(s: Seq<char>) -> bool;

/// Relies on `rustls::ServerName::try_from(&str)`: whether a string parses as
/// a DNS name or an IP address is a function of its characters alone.
#[verifier::external_body]
fn server_name_is_valid(s: &str) -> (r: bool)
    ensures
        r == valid_server_name(s@),
{
    rustls::ServerName::try_from(s).is_ok()
}

/// What the connector is to do for one session: the transport connection to
/// open, and whether a client-side TLS handshake follows it.
#[derive(Clone, Debug, PartialEq, Eq)]
pub enum ConnectPlan {
    /// Open a raw transport connection to `addr` and use it as-is.
    Tcp { addr: String },
    /// Open a raw transport connection to `addr`, then handshake presenting
    /// `server_name`, with the always-accept trust policy.
    TlsOverTcp { addr: String, server_name: String },
}

/// Plans the backend connection for a target.
///
/// A plain target always yields a raw transport plan. An encrypted target
/// yields a TLS plan exactly when its server name is a syntactically valid
/// host identifier; an invalid name is a configuration error, detected here,
/// at first use.
pub fn connect_plan(target: &BackendTarget) -> (r: Result<ConnectPlan, ProxyError>)
    ensures
        target matches BackendTarget::Plain { addr } ==> (r matches Ok(p)
            && p matches ConnectPlan::Tcp { addr: a } && a@ == addr@),
        target matches BackendTarget::EncryptedInsecure { addr, server_name } ==> {
            &&& valid_server_name(server_name@) ==> (r matches Ok(p)
                && p matches ConnectPlan::TlsOverTcp { addr: a, server_name: n }
                && a@ == addr@ && n@ == server_name@)
            &&& !valid_server_name(server_name@) ==> r == Err::<ConnectPlan, ProxyError>(
                ProxyError::Config,
            )
        },
{
    match target {
        BackendTarget::Plain { addr } => Ok(ConnectPlan::Tcp { addr: addr.clone() }),
        BackendTarget::EncryptedInsecure { addr, server_name } => {
            if server_name_is_valid(server_name.as_str()) {
                Ok(ConnectPlan::TlsOverTcp { addr: addr.clone(), server_name: server_name.clone() })
            } else {
                Err(ProxyError::Config)
            }
        },
    }
}

} // verus!
