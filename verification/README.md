# rustls_psk

External pre-shared keys (PSKs) for TLS 1.3, written in Verus.

- `src/external_psk.rs`: the client and server resolver traits, `ExternalPsk`
  (identity, zeroized secret, cipher suite), `expected_hash_len`, the
  redacting debug text, and the proof functions that state the key's laws.
- `src/cipher_suite.rs`: the TLS 1.3 and TLS 1.2 ECDHE cipher suites and their debug text.
- `src/debug_text.rs`: decimal and byte-list rendering as `Debug` writes it.
- `src/secret_bytes.rs`: the secret buffer, held in `zeroize::Zeroizing`.
- `app/lib.rs`: a `core::fmt::Debug` wrapper over the verified debug text.
