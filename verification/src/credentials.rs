//! Server credential loading.
//!
//! The proxy terminates inbound TLS under one certificate chain and private
//! key, read from PEM documents supplied at startup. This module parses the
//! two documents, picks the first PKCS#8 key, and derives the server-side TLS
//! configuration from the pair — once, at startup; the configuration is then
//! shared read-only by every inbound termination. Any failure here is a
//! configuration error, fatal before a socket is bound.

use vstd::prelude::*;
use crate::ProxyError;

verus! {

/// The DER contents of the CERTIFICATE sections of a PEM document, in order,
/// or nothing when the document is malformed.
pub uninterp spec fn pem_certs_of(pem: Seq<u8>) -> Option<Seq<Seq<u8>>>;

/// The DER contents of the PKCS#8 PRIVATE KEY sections of a PEM document, in
/// order, or nothing when the document is malformed.
pub uninterp spec fn pem_pkcs8_keys_of(pem: Seq<u8>) -> Option<Seq<Seq<u8>>>;

/// Whether the server accepts this chain/key pair as its identity: the key
/// must be a usable RSA, ECDSA or Ed25519 private key in DER form.
pub uninterp spec fn accepts_identity(certs: Seq<Seq<u8>>, key: Seq<u8>) -> bool;

/// Relies on `rustls_pemfile::certs`: extracts the DER bytes of every
/// CERTIFICATE section, in order, failing only on a malformed document — a
/// function of the bytes alone. A document with no such section gives an
/// empty list, not an error.
#[verifier::external_body]
fn parse_certs_pem(pem: &Vec<u8>) -> (r: Result<Vec<Vec<u8>>, ProxyError>)
    ensures
        (match r {
            Ok(v) => pem_certs_of(pem@) == Some(v.deep_view()),
            Err(e) => pem_certs_of(pem@) is None && e == ProxyError::Config,
        }),
{
    match rustls_pemfile::certs(&mut pem.as_slice()) {
        Ok(v) => Ok(v),
        Err(_) => Err(ProxyError::Config),
    }
}

/// Relies on `rustls_pemfile::pkcs8_private_keys`: extracts the DER bytes of
/// every PKCS#8 PRIVATE KEY section, in order, failing only on a malformed
/// document — a function of the bytes alone. A document with no such section
/// gives an empty list, not an error.
#[verifier::external_body]
fn parse_pkcs8_keys_pem(pem: &Vec<u8>) -> (r: Result<Vec<Vec<u8>>, ProxyError>)
    ensures
        (match r {
            Ok(v) => pem_pkcs8_keys_of(pem@) == Some(v.deep_view()),
            Err(e) => pem_pkcs8_keys_of(pem@) is None && e == ProxyError::Config,
        }),
{
    match rustls_pemfile::pkcs8_private_keys(&mut pem.as_slice()) {
        Ok(v) => Ok(v),
        Err(_) => Err(ProxyError::Config),
    }
}

#[verifier::external_type_specification]
#[verifier::external_body]
pub struct ExServerConfig(rustls::ServerConfig);

/// Relies on `rustls::ServerConfig` built by
/// `builder().with_safe_defaults().with_no_client_auth().with_single_cert(certs, key)`:
/// it yields a configuration that serves the given chain and key and requests
/// no client certificate, and fails exactly when the key is not a usable DER
/// private key — a function of the chain and key bytes alone.
#[verifier::external_body]
fn build_server_config(certs: Vec<Vec<u8>>, key: Vec<u8>) -> (r: Result<
    rustls::ServerConfig,
    ProxyError,
>)
    ensures
        (match r {
            Ok(_) => accepts_identity(certs.deep_view(), key@),
            Err(e) => !accepts_identity(certs.deep_view(), key@) && e == ProxyError::Config,
        }),
{
    let chain = certs.into_iter().map(rustls::Certificate).collect();
    rustls::ServerConfig::builder()
        .with_safe_defaults()
        .with_no_client_auth()
        .with_single_cert(chain, rustls::PrivateKey(key))
        .map_err(|_| ProxyError::Config)
}

/// Parses a PEM certificate document into its DER certificates.
///
/// Fails with a configuration error exactly when the document is malformed;
/// a well-formed document with no CERTIFICATE section yields an empty chain.
pub fn load_certs(pem: &Vec<u8>) -> (r: Result<Vec<Vec<u8>>, ProxyError>)
    ensures
        r is Ok <==> pem_certs_of(pem@) is Some,
        r matches Ok(v) ==> pem_certs_of(pem@) == Some(v.deep_view()),
        r is Err ==> r == Err::<Vec<Vec<u8>>, ProxyError>(ProxyError::Config),
{
    parse_certs_pem(pem)
}

/// Parses a PEM private-key document into its DER PKCS#8 keys.
///
/// Fails with a configuration error exactly when the document is malformed;
/// a well-formed document with no PKCS#8 section yields an empty list.
pub fn load_keys(pem: &Vec<u8>) -> (r: Result<Vec<Vec<u8>>, ProxyError>)
    ensures
        r is Ok <==> pem_pkcs8_keys_of(pem@) is Some,
        r matches Ok(v) ==> pem_pkcs8_keys_of(pem@) == Some(v.deep_view()),
        r is Err ==> r == Err::<Vec<Vec<u8>>, ProxyError>(ProxyError::Config),
{
    parse_pkcs8_keys_pem(pem)
}

/// The server's TLS identity, derived once at startup and shared read-only
/// by every inbound termination.
pub struct ServerTlsContext {
    /// The derived configuration, wrapped by the binary for the acceptor.
    pub config: rustls::ServerConfig,
    /// The DER certificates of the chain the configuration serves.
    pub certs: Ghost<Seq<Seq<u8>>>,
    /// The DER PKCS#8 key the configuration signs with.
    pub key: Ghost<Seq<u8>>,
}

impl ServerTlsContext {
    /// The context was built from a chain/key pair the server accepts.
    pub open spec fn wf(&self) -> bool {
        accepts_identity(self.certs@, self.key@)
    }

    /// Hands the configuration to the surrounding binary, which wraps it for
    /// the inbound TLS acceptor.
    pub fn into_config(self) -> (r: rustls::ServerConfig)
        ensures
            r == self.config,
    {
        self.config
    }
}

/// Derives the server's TLS identity from its two PEM documents.
///
/// Succeeds exactly when the certificate document is well-formed, the key
/// document is well-formed and holds at least one PKCS#8 key, and the server
/// accepts the chain together with the first such key. Every failure is a
/// configuration error — fatal at startup, before any socket is bound.
pub fn load_server_identity(cert_pem: &Vec<u8>, key_pem: &Vec<u8>) -> (r: Result<
    ServerTlsContext,
    ProxyError,
>)
    ensures
        r is Ok <==> (pem_certs_of(cert_pem@) matches Some(cs)
            && pem_pkcs8_keys_of(key_pem@) matches Some(ks) && ks.len() > 0
            && accepts_identity(cs, ks[0])),
        r matches Ok(ctx) ==> {
            &&& ctx.wf()
            &&& Some(ctx.certs@) == pem_certs_of(cert_pem@)
            &&& ctx.key@ == pem_pkcs8_keys_of(key_pem@).unwrap()[0]
        },
        r is Err ==> r == Err::<ServerTlsContext, ProxyError>(ProxyError::Config),
{
    let certs = load_certs(cert_pem)?;
    let ghost certs_view = certs.deep_view();
    let mut keys = load_keys(key_pem)?;
    let ghost keys_view = keys.deep_view();
    if keys.len() == 0 {
        return Err(ProxyError::Config);
    }
    let key = keys.remove(0);
    let ghost key_view = key@;
    proof {
        assert(key@ =~= keys_view[0]);
    }
    match build_server_config(certs, key) {
        Ok(config) => Ok(ServerTlsContext {
            config,
            certs: Ghost(certs_view),
            key: Ghost(key_view),
        }),
        Err(e) => Err(e),
    }
}

} // verus!
