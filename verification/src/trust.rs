//! The backend certificate trust policy.
//!
//! The proxy's security boundary is the inbound TLS identity; backend
//! identity is assumed trusted by deployment. The outbound handshake
//! therefore runs under an explicit always-accept policy: every certificate
//! the backend presents is accepted, whatever its chain, hostname or
//! validity period. The policy is a named, swappable object rather than a
//! silent special case, so the dangerous trust decision stays visible.

use vstd::prelude::*;

verus! {

/// The trust policy applied to certificates presented by an encrypted
/// backend. The single variant accepts unconditionally.
#[derive(Clone, Copy, Debug, PartialEq, Eq, Structural)]
pub enum BackendTrustPolicy {
    /// Accept any presented certificate: no chain, hostname or expiry check.
    AcceptAny,
}

/// The verification decision of a policy on one presented certificate:
/// the end-entity certificate and intermediates in DER form, the server
/// name the handshake presented, and the verification time in milliseconds.
pub open spec fn spec_accepts_certificate(
    policy: BackendTrustPolicy,
    end_entity: Seq<u8>,
    intermediates: Seq<Seq<u8>>,
    server_name: Seq<char>,
    now_ms: u64,
) -> bool {
    match policy {
        BackendTrustPolicy::AcceptAny => true,
    }
}

/// Decides whether a presented backend certificate is accepted.
///
/// The surrounding binary's verifier calls this with whatever the backend
/// presented; under the always-accept policy the answer is `true` for every
/// input.
pub fn accepts_certificate(
    policy: &BackendTrustPolicy,
    end_entity: &Vec<u8>,
    intermediates: &Vec<Vec<u8>>,
    server_name: &str,
    now_ms: u64,
) -> (r: bool)
    ensures
        r == spec_accepts_certificate(
            *policy,
            end_entity@,
            intermediates.deep_view(),
            server_name@,
            now_ms,
        ),
{
    match policy {
        BackendTrustPolicy::AcceptAny => true,
    }
}

/// Law: the bypass of the always-accept policy is total. A certificate with
/// a mismatched hostname, expired validity or untrusted issuer is a
/// particular choice of these inputs, and every choice is accepted.
pub proof fn lemma_insecure_trust_total(
    end_entity: Seq<u8>,
    intermediates: Seq<Seq<u8>>,
    server_name: Seq<char>,
    now_ms: u64,
)
    ensures
        spec_accepts_certificate(
            BackendTrustPolicy::AcceptAny,
            end_entity,
            intermediates,
            server_name,
            now_ms,
        ),
{
}

} // verus!
