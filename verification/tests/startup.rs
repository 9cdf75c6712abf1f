use retls::config::{ProxyConfig, DEFAULT_TIMEOUT_MS};
use retls::startup::{startup_start, startup_step, StartupAction, StartupEvent, StartupState};
use retls::target::BackendTarget;
use retls::trust::{accepts_certificate, BackendTrustPolicy};
use retls::{fatal_for_process, ProxyError};

#[test]
fn startup_binds_then_accepts() {
    let s = startup_start();
    assert_eq!(s, StartupState::LoadingCredentials);
    let (s, a) = startup_step(s, StartupEvent::CredentialsLoaded);
    assert_eq!(s, StartupState::Binding);
    assert_eq!(a, StartupAction::BindListener);
    let (s, a) = startup_step(s, StartupEvent::BindSucceeded);
    assert_eq!(s, StartupState::Accepting);
    assert_eq!(a, StartupAction::AcceptNext);
    let (s, a) = startup_step(s, StartupEvent::InboundAccepted);
    assert_eq!(s, StartupState::Accepting);
    assert_eq!(a, StartupAction::SpawnSession);
}

#[test]
fn bad_credentials_exit_before_any_bind() {
    let (s, a) = startup_step(StartupState::LoadingCredentials, StartupEvent::CredentialsRejected);
    assert_eq!(s, StartupState::Exited { error: ProxyError::Config });
    assert_eq!(a, StartupAction::ExitProcess);
}

#[test]
fn failed_bind_exits_before_any_accept() {
    let (s, a) = startup_step(StartupState::Binding, StartupEvent::BindFailed);
    assert_eq!(s, StartupState::Exited { error: ProxyError::Bind });
    assert_eq!(a, StartupAction::ExitProcess);
}

#[test]
fn failed_accept_exits_the_process() {
    let (s, a) = startup_step(StartupState::Accepting, StartupEvent::AcceptFailed);
    assert_eq!(s, StartupState::Exited { error: ProxyError::Accept });
    assert_eq!(a, StartupAction::ExitProcess);
}

#[test]
fn error_classification() {
    assert!(fatal_for_process(&ProxyError::Bind));
    assert!(fatal_for_process(&ProxyError::Accept));
    assert!(!fatal_for_process(&ProxyError::Config));
    assert!(!fatal_for_process(&ProxyError::Handshake));
    assert!(!fatal_for_process(&ProxyError::Connect));
    assert!(!fatal_for_process(&ProxyError::Timeout));
    assert!(!fatal_for_process(&ProxyError::Relay));
}

#[test]
fn config_resolves_target_and_defaults_timeout() {
    let c = ProxyConfig::from_options(
        "0.0.0.0:443".to_string(),
        "tls:10.0.0.7:8443",
        "backend.internal",
        None,
    );
    assert_eq!(c.listen, "0.0.0.0:443");
    assert_eq!(c.timeout_ms, DEFAULT_TIMEOUT_MS);
    assert_eq!(c.timeout_ms, 30000);
    assert!(matches!(c.target, BackendTarget::EncryptedInsecure { .. }));

    let c = ProxyConfig::from_options(
        "127.0.0.1:8080".to_string(),
        "10.0.0.7:80",
        "ignored.example",
        Some(1500),
    );
    assert_eq!(c.timeout_ms, 1500);
    assert!(matches!(c.target, BackendTarget::Plain { .. }));
}

#[test]
fn insecure_trust_accepts_every_certificate() {
    // Arbitrary DER bytes, a hostname no certificate matches, and an
    // arbitrary verification time: the bypass is total.
    let end_entity = vec![0x30u8, 0x82, 0x01, 0x00];
    let intermediates = vec![vec![0xDEu8, 0xAD], vec![]];
    assert!(accepts_certificate(
        &BackendTrustPolicy::AcceptAny,
        &end_entity,
        &intermediates,
        "mismatched.example",
        u64::MAX,
    ));
    assert!(accepts_certificate(
        &BackendTrustPolicy::AcceptAny,
        &vec![],
        &vec![],
        "",
        0,
    ));
}
