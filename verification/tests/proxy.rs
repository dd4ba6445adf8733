use hudsucker::openssl::pkey::PKey;
use hudsucker::openssl::x509::X509;
use mitmproxy_desktop::cert_manager::issue;
use mitmproxy_desktop::error::ProxyError;
use mitmproxy_desktop::proxy::{
    BindAddress, DigestAlgorithm, ProxyManager, ProxyState, StartRequest, Started, Stopped,
    MAX_MATERIAL_LEN, MINT_CACHE_SIZE,
};
use tokio::sync::oneshot::error::TryRecvError;

fn valid_material() -> Vec<u8> {
    let material = issue().expect("a new authority");
    let mut bytes = material.certificate_pem.into_bytes();
    bytes.extend_from_slice(material.private_key_pem.as_bytes());
    bytes
}

fn certificate_only() -> Vec<u8> {
    issue().expect("a new authority").certificate_pem.into_bytes()
}

#[test]
fn constants() {
    assert_eq!(MINT_CACHE_SIZE, 1_000);
    assert_eq!(MAX_MATERIAL_LEN, i32::MAX as usize);
    assert_ne!(ProxyState::Running, ProxyState::Stopped);
    assert_ne!(ProxyState::Error, ProxyState::Stopped);
}

#[test]
fn a_new_controller_has_no_listener() {
    assert!(!ProxyManager::new().is_active());
}

#[test]
fn start_without_a_path_is_refused() {
    let manager = ProxyManager::new();
    match manager.start(8080, None) {
        Err(ProxyError::CertificatePathNotSet) => {}
        other => panic!("{:?}", other),
    }
    assert!(!manager.is_active());
}

#[test]
fn start_asks_for_the_material_to_be_read() {
    let manager = ProxyManager::new();
    match manager.start(8081, Some("/cfg/ca.crt".to_owned())) {
        Ok(StartRequest::Read { port, path }) => {
            assert_eq!(port, 8081);
            assert_eq!(path, "/cfg/ca.crt");
        }
        other => panic!("{:?}", other),
    }
}

#[test]
fn launch_with_valid_material_registers_and_binds_loopback() {
    let mut manager = ProxyManager::new();
    match manager.launch(8080, Ok(valid_material())) {
        Ok(Started::Launch(config)) => {
            assert_eq!(config.address, BindAddress { ip: (127, 0, 0, 1), port: 8080 });
            assert_eq!(config.digest, DigestAlgorithm::Sha256);
            assert_eq!(config.mint_cache_size, 1_000);
        }
        other => panic!("{:?}", other),
    }
    assert!(manager.is_active());
}

#[test]
fn repeated_start_while_running_keeps_one_listener() {
    let mut manager = ProxyManager::new();
    let mut shutdown = match manager.launch(8080, Ok(valid_material())) {
        Ok(Started::Launch(config)) => config.shutdown,
        other => panic!("{:?}", other),
    };
    for _ in 0..3 {
        assert!(matches!(
            manager.start(8080, Some("/cfg/ca.crt".to_owned())),
            Ok(StartRequest::AlreadyRunning)
        ));
        assert!(matches!(manager.start(8080, None), Ok(StartRequest::AlreadyRunning)));
        assert!(matches!(
            manager.launch(8080, Ok(valid_material())),
            Ok(Started::AlreadyRunning)
        ));
        assert!(matches!(
            manager.launch(8080, Ok(b"garbage".to_vec())),
            Ok(Started::AlreadyRunning)
        ));
        assert!(matches!(
            manager.launch(8080, Err("unreadable".to_owned())),
            Ok(Started::AlreadyRunning)
        ));
        assert!(manager.is_active());
    }
    assert_eq!(shutdown.try_recv(), Err(TryRecvError::Empty));
}

#[test]
fn stop_fires_the_registered_signal() {
    let mut manager = ProxyManager::new();
    let mut shutdown = match manager.launch(9000, Ok(valid_material())) {
        Ok(Started::Launch(config)) => config.shutdown,
        other => panic!("{:?}", other),
    };
    assert_eq!(shutdown.try_recv(), Err(TryRecvError::Empty));
    assert!(matches!(manager.stop(), Ok(Stopped::Signalled)));
    assert!(!manager.is_active());
    assert_eq!(shutdown.try_recv(), Ok(()));
}

#[test]
fn stop_without_a_listener_does_nothing() {
    let mut manager = ProxyManager::new();
    assert!(matches!(manager.stop(), Ok(Stopped::NotRunning)));
    assert!(matches!(manager.stop(), Ok(Stopped::NotRunning)));
    assert!(!manager.is_active());
}

#[test]
fn start_after_stop_launches_again_on_the_same_port() {
    let mut manager = ProxyManager::new();
    let first = match manager.launch(8080, Ok(valid_material())) {
        Ok(Started::Launch(config)) => config,
        other => panic!("{:?}", other),
    };
    assert!(matches!(manager.stop(), Ok(Stopped::Signalled)));
    let mut second = match manager.launch(8080, Ok(valid_material())) {
        Ok(Started::Launch(config)) => config,
        other => panic!("{:?}", other),
    };
    assert_eq!(first.address, second.address);
    assert_eq!(second.address.port, 8080);
    assert!(manager.is_active());
    assert_eq!(second.shutdown.try_recv(), Err(TryRecvError::Empty));
}

#[test]
fn malformed_material_is_refused_and_registers_nothing() {
    let mut manager = ProxyManager::new();
    for bytes in [b"".to_vec(), b"not a certificate".to_vec(), b"-----BEGIN CERTIFICATE-----\nAAAA\n-----END CERTIFICATE-----\n".to_vec()] {
        match manager.launch(8080, Ok(bytes)) {
            Err(ProxyError::MalformedCertificate(_)) => {}
            other => panic!("{:?}", other),
        }
        assert!(!manager.is_active());
    }
}

#[test]
fn a_certificate_without_its_key_is_refused() {
    let mut manager = ProxyManager::new();
    match manager.launch(8080, Ok(certificate_only())) {
        Err(ProxyError::MalformedKey(_)) => {}
        other => panic!("{:?}", other),
    }
    assert!(!manager.is_active());
}

#[test]
fn unreadable_material_is_refused_with_the_message() {
    let mut manager = ProxyManager::new();
    match manager.launch(8080, Err("No such file or directory (os error 2)".to_owned())) {
        Err(ProxyError::Unreadable(text)) => {
            assert_eq!(text, "No such file or directory (os error 2)")
        }
        other => panic!("{:?}", other),
    }
    assert!(!manager.is_active());
}

#[test]
fn register_decides_on_what_the_parser_made() {
    let bytes = valid_material();
    let mut manager = ProxyManager::new();
    match manager.register(1, X509::from_pem(b"x"), None) {
        Err(ProxyError::MalformedCertificate(_)) => {}
        other => panic!("{:?}", other),
    }
    match manager.register(1, X509::from_pem(&bytes), Some(PKey::private_key_from_pem(b"x"))) {
        Err(ProxyError::MalformedKey(_)) => {}
        other => panic!("{:?}", other),
    }
    match manager.register(1, X509::from_pem(&bytes), None) {
        Err(ProxyError::MalformedKey(_)) => {}
        other => panic!("{:?}", other),
    }
    assert!(!manager.is_active());
    match manager.register(
        65535,
        X509::from_pem(&bytes),
        Some(PKey::private_key_from_pem(&bytes)),
    ) {
        Ok(Started::Launch(config)) => assert_eq!(config.address.port, 65535),
        other => panic!("{:?}", other),
    }
    assert!(manager.is_active());
    assert!(matches!(
        manager.register(2, X509::from_pem(b"x"), None),
        Ok(Started::AlreadyRunning)
    ));
}

#[test]
fn proxy_error_messages() {
    assert_eq!(ProxyError::CertificatePathNotSet.message(), "Certificate path not set");
    assert_eq!(ProxyError::Unreadable("a".to_owned()).message(), "a");
    assert_eq!(ProxyError::MalformedCertificate("b".to_owned()).message(), "b");
    assert_eq!(ProxyError::MalformedKey("c".to_owned()).message(), "c");
    assert_eq!(ProxyError::Engine("d".to_owned()).message(), "d");
}
