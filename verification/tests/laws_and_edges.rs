use rustls_psk::cipher_suite::CipherSuite;
use rustls_psk::external_psk::expected_hash_len;
use rustls_psk::external_psk::ExternalPsk;

#[test]
fn secret_reads_back_what_new_was_given() {
    let psk = ExternalPsk::new(b"id".to_vec(), vec![0, 1, 2, 255]);
    assert_eq!(psk.secret(), &[0u8, 1, 2, 255][..]);
    assert_eq!(psk.identity, b"id".to_vec());
}

#[test]
fn empty_secret_reads_back_empty() {
    let psk = ExternalPsk::new(Vec::new(), Vec::new());
    assert!(psk.secret().is_empty());
    assert!(psk.identity.is_empty());
}

#[test]
fn with_cipher_suite_keeps_identity_and_secret() {
    let psk = ExternalPsk::new(b"client".to_vec(), b"key-bytes".to_vec())
        .with_cipher_suite(CipherSuite::TLS13_CHACHA20_POLY1305_SHA256);
    assert_eq!(psk.identity, b"client".to_vec());
    assert_eq!(psk.secret(), b"key-bytes");
    assert_eq!(psk.cipher_suite, CipherSuite::TLS13_CHACHA20_POLY1305_SHA256);
}

#[test]
fn last_cipher_suite_wins() {
    let psk = ExternalPsk::new(b"id".to_vec(), b"s".to_vec())
        .with_cipher_suite(CipherSuite::TLS13_AES_256_GCM_SHA384)
        .with_cipher_suite(CipherSuite::TLS13_AES_128_CCM_SHA256);
    assert_eq!(psk.cipher_suite, CipherSuite::TLS13_AES_128_CCM_SHA256);
    assert_eq!(psk.secret(), b"s");
}

#[test]
fn default_suite_has_sha256_hash_len() {
    let psk = ExternalPsk::new(b"id".to_vec(), b"s".to_vec());
    assert_eq!(expected_hash_len(psk.cipher_suite), 32);
}

#[test]
fn expected_hash_len_other_suites() {
    assert_eq!(expected_hash_len(CipherSuite::TLS13_AES_128_CCM_SHA256), 32);
    assert_eq!(expected_hash_len(CipherSuite::TLS13_AES_128_CCM_8_SHA256), 32);
    assert_eq!(expected_hash_len(CipherSuite::Unknown(0x1302)), 32);
    assert_eq!(expected_hash_len(CipherSuite::Unknown(0)), 32);
    assert_eq!(
        expected_hash_len(CipherSuite::TLS_ECDHE_RSA_WITH_AES_256_GCM_SHA384),
        32
    );
}

#[test]
fn debug_string_exact_text() {
    let psk = ExternalPsk::new(b"id".to_vec(), b"top-secret".to_vec());
    assert_eq!(
        psk.debug_string(),
        "ExternalPsk { identity: [105, 100], secret: \"[redacted]\", cipher_suite: TLS13_AES_128_GCM_SHA256 }"
    );
}

#[test]
fn debug_string_empty_identity() {
    let psk = ExternalPsk::new(Vec::new(), b"k".to_vec())
        .with_cipher_suite(CipherSuite::TLS13_AES_256_GCM_SHA384);
    assert_eq!(
        psk.debug_string(),
        "ExternalPsk { identity: [], secret: \"[redacted]\", cipher_suite: TLS13_AES_256_GCM_SHA384 }"
    );
}

#[test]
fn debug_string_names_each_suite() {
    let identity: Vec<u8> = vec![0, 9, 10, 99, 100, 255];
    let cases = [
        (CipherSuite::TLS13_AES_128_GCM_SHA256, "TLS13_AES_128_GCM_SHA256"),
        (CipherSuite::TLS13_AES_256_GCM_SHA384, "TLS13_AES_256_GCM_SHA384"),
        (CipherSuite::TLS13_CHACHA20_POLY1305_SHA256, "TLS13_CHACHA20_POLY1305_SHA256"),
        (CipherSuite::TLS13_AES_128_CCM_SHA256, "TLS13_AES_128_CCM_SHA256"),
        (CipherSuite::TLS13_AES_128_CCM_8_SHA256, "TLS13_AES_128_CCM_8_SHA256"),
        (
            CipherSuite::TLS_ECDHE_ECDSA_WITH_AES_128_GCM_SHA256,
            "TLS_ECDHE_ECDSA_WITH_AES_128_GCM_SHA256",
        ),
        (
            CipherSuite::TLS_ECDHE_ECDSA_WITH_AES_256_GCM_SHA384,
            "TLS_ECDHE_ECDSA_WITH_AES_256_GCM_SHA384",
        ),
        (
            CipherSuite::TLS_ECDHE_ECDSA_WITH_CHACHA20_POLY1305_SHA256,
            "TLS_ECDHE_ECDSA_WITH_CHACHA20_POLY1305_SHA256",
        ),
        (
            CipherSuite::TLS_ECDHE_RSA_WITH_AES_128_GCM_SHA256,
            "TLS_ECDHE_RSA_WITH_AES_128_GCM_SHA256",
        ),
        (
            CipherSuite::TLS_ECDHE_RSA_WITH_AES_256_GCM_SHA384,
            "TLS_ECDHE_RSA_WITH_AES_256_GCM_SHA384",
        ),
        (
            CipherSuite::TLS_ECDHE_RSA_WITH_CHACHA20_POLY1305_SHA256,
            "TLS_ECDHE_RSA_WITH_CHACHA20_POLY1305_SHA256",
        ),
        (CipherSuite::TLS_EMPTY_RENEGOTIATION_INFO_SCSV, "TLS_EMPTY_RENEGOTIATION_INFO_SCSV"),
        (CipherSuite::Unknown(0), "Unknown(0)"),
        (CipherSuite::Unknown(7), "Unknown(7)"),
        (CipherSuite::Unknown(4660), "Unknown(4660)"),
        (CipherSuite::Unknown(65535), "Unknown(65535)"),
    ];
    for (suite, name) in cases {
        let psk = ExternalPsk::new(identity.clone(), b"hidden".to_vec()).with_cipher_suite(suite);
        let expected = String::from(
            "ExternalPsk { identity: [0, 9, 10, 99, 100, 255], secret: \"[redacted]\", cipher_suite: ",
        ) + name
            + " }";
        assert_eq!(psk.debug_string(), expected);
        assert_eq!(format!("{:?}", suite), name);
    }
}

#[test]
fn debug_string_ignores_secret() {
    let a = ExternalPsk::new(b"same".to_vec(), b"first-secret".to_vec());
    let b = ExternalPsk::new(b"same".to_vec(), b"second".to_vec());
    assert_eq!(a.debug_string(), b.debug_string());
    assert!(!a.debug_string().contains("first-secret"));
}

#[test]
fn sha384_suite_after_with_cipher_suite_has_hash_len_48() {
    let psk = ExternalPsk::new(b"id".to_vec(), b"s".to_vec())
        .with_cipher_suite(CipherSuite::TLS13_AES_256_GCM_SHA384);
    assert_eq!(expected_hash_len(psk.cipher_suite), 48);
}
