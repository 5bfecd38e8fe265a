use rustls_psk::cipher_suite::CipherSuite;
use rustls_psk::external_psk::expected_hash_len;
use rustls_psk::external_psk::ExternalPsk;
use rustls_psk::external_psk::ResolvesClientPsk;
use rustls_psk::external_psk::ResolvesServerPsk;

#[derive(Debug)]
struct TestServerPskResolver {
    known_identity: Vec<u8>,
    known_secret: Vec<u8>,
}

impl ResolvesServerPsk for TestServerPskResolver {
    fn resolve(&self, identity: &[u8]) -> Option<Vec<u8>> {
        if identity == self.known_identity {
            Some(self.known_secret.clone())
        } else {
            None
        }
    }
}

#[derive(Debug)]
struct TestClientPskResolver {
    identity: Vec<u8>,
    secret: Vec<u8>,
    target_server: Option<String>,
}

impl ResolvesClientPsk for TestClientPskResolver {
    fn resolve(&self, server_name: Option<&str>) -> Option<ExternalPsk> {
        match (&self.target_server, server_name) {
            (Some(target), Some(name)) if target == name => Some(ExternalPsk::new(
                self.identity.clone(),
                self.secret.clone(),
            )),
            (None, _) => Some(ExternalPsk::new(
                self.identity.clone(),
                self.secret.clone(),
            )),
            _ => None,
        }
    }
}

#[test]
fn server_psk_resolver_matches_known_identity() {
    let resolver = TestServerPskResolver {
        known_identity: b"client-id-1".to_vec(),
        known_secret: b"secret-key-1".to_vec(),
    };

    assert_eq!(
        resolver.resolve(b"client-id-1"),
        Some(b"secret-key-1".to_vec())
    );
}

#[test]
fn server_psk_resolver_rejects_unknown_identity() {
    let resolver = TestServerPskResolver {
        known_identity: b"client-id-1".to_vec(),
        known_secret: b"secret-key-1".to_vec(),
    };

    assert_eq!(resolver.resolve(b"unknown-id"), None);
}

#[test]
fn client_psk_resolver_returns_identity_for_matching_server() {
    let resolver = TestClientPskResolver {
        identity: b"my-id".to_vec(),
        secret: b"my-secret".to_vec(),
        target_server: Some("example.com".to_string()),
    };

    let result = resolver.resolve(Some("example.com"));
    assert!(result.is_some());
    let psk = result.unwrap();
    assert_eq!(psk.identity, b"my-id");
    assert_eq!(psk.secret(), b"my-secret");
}

#[test]
fn client_psk_resolver_returns_none_for_wrong_server() {
    let resolver = TestClientPskResolver {
        identity: b"my-id".to_vec(),
        secret: b"my-secret".to_vec(),
        target_server: Some("example.com".to_string()),
    };

    assert!(resolver.resolve(Some("other.com")).is_none());
}

#[test]
fn client_psk_resolver_returns_none_when_no_server_name() {
    let resolver = TestClientPskResolver {
        identity: b"my-id".to_vec(),
        secret: b"my-secret".to_vec(),
        target_server: Some("example.com".to_string()),
    };

    assert!(resolver.resolve(None).is_none());
}

#[test]
fn client_psk_resolver_returns_identity_regardless_of_server() {
    let resolver = TestClientPskResolver {
        identity: b"universal-id".to_vec(),
        secret: b"universal-secret".to_vec(),
        target_server: None,
    };

    assert!(resolver.resolve(Some("any.com")).is_some());
    assert!(resolver.resolve(None).is_some());
}

#[test]
fn external_psk_default_cipher_suite() {
    let psk = ExternalPsk::new(b"id".to_vec(), b"secret".to_vec());
    assert_eq!(psk.cipher_suite, CipherSuite::TLS13_AES_128_GCM_SHA256);
}

#[test]
fn external_psk_with_cipher_suite() {
    let psk = ExternalPsk::new(b"id".to_vec(), b"secret".to_vec())
        .with_cipher_suite(CipherSuite::TLS13_AES_256_GCM_SHA384);
    assert_eq!(psk.cipher_suite, CipherSuite::TLS13_AES_256_GCM_SHA384);
}

#[test]
fn external_psk_debug_redacts_secret() {
    let psk = ExternalPsk::new(b"id".to_vec(), b"top-secret".to_vec());
    let debug = psk.debug_string();
    assert!(!debug.contains("top-secret"));
    assert!(debug.contains("[redacted]"));
}

#[test]
fn expected_hash_len_sha256() {
    assert_eq!(
        expected_hash_len(CipherSuite::TLS13_AES_128_GCM_SHA256),
        32
    );
    assert_eq!(
        expected_hash_len(CipherSuite::TLS13_CHACHA20_POLY1305_SHA256),
        32
    );
}

#[test]
fn expected_hash_len_sha384() {
    assert_eq!(
        expected_hash_len(CipherSuite::TLS13_AES_256_GCM_SHA384),
        48
    );
}
