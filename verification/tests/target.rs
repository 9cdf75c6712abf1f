use retls::target::{connect_plan, parse_backend_target, BackendTarget, ConnectPlan};
use retls::ProxyError;

#[test]
fn scheme_dispatch_encrypted() {
    let t = parse_backend_target("tls:127.0.0.1:8443", "backend.example");
    match t {
        BackendTarget::EncryptedInsecure { addr, server_name } => {
            assert_eq!(addr, "127.0.0.1:8443");
            assert_eq!(server_name, "backend.example");
        }
        other => panic!("expected the encrypted variant, got {:?}", other),
    }
}

#[test]
fn scheme_dispatch_plain() {
    let t = parse_backend_target("127.0.0.1:8443", "ignored.example");
    match t {
        BackendTarget::Plain { addr } => assert_eq!(addr, "127.0.0.1:8443"),
        other => panic!("expected the plain variant, got {:?}", other),
    }
}

#[test]
fn scheme_prefix_must_be_exact() {
    // `tls` without the colon is part of the address, not a scheme.
    let t = parse_backend_target("tlshost:443", "ignored.example");
    assert!(matches!(t, BackendTarget::Plain { .. }));
    // An empty descriptor is a plain target too.
    let t = parse_backend_target("", "ignored.example");
    assert!(matches!(t, BackendTarget::Plain { addr } if addr.is_empty()));
}

#[test]
fn connect_plan_plain_is_raw_transport() {
    let t = parse_backend_target("backend.internal:9000", "ignored.example");
    let plan = connect_plan(&t).expect("a plain target always yields a plan");
    match plan {
        ConnectPlan::Tcp { addr } => assert_eq!(addr, "backend.internal:9000"),
        other => panic!("expected a raw transport plan, got {:?}", other),
    }
}

#[test]
fn connect_plan_encrypted_with_dns_name() {
    let t = parse_backend_target("tls:10.0.0.7:8443", "backend.internal");
    let plan = connect_plan(&t).expect("a valid DNS name yields a TLS plan");
    match plan {
        ConnectPlan::TlsOverTcp { addr, server_name } => {
            assert_eq!(addr, "10.0.0.7:8443");
            assert_eq!(server_name, "backend.internal");
        }
        other => panic!("expected a TLS plan, got {:?}", other),
    }
}

#[test]
fn connect_plan_encrypted_with_ip_name() {
    let t = parse_backend_target("tls:10.0.0.7:8443", "10.0.0.7");
    let plan = connect_plan(&t).expect("an IP address is a valid host identifier");
    assert!(matches!(plan, ConnectPlan::TlsOverTcp { .. }));
}

#[test]
fn connect_plan_rejects_invalid_server_name() {
    let t = parse_backend_target("tls:10.0.0.7:8443", "not a hostname");
    assert_eq!(connect_plan(&t), Err(ProxyError::Config));
    let t = parse_backend_target("tls:10.0.0.7:8443", "");
    assert_eq!(connect_plan(&t), Err(ProxyError::Config));
}
