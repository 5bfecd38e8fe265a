//! External pre-shared keys (PSKs) for TLS 1.3, with verified contracts.
//!
//! The library holds the types that resolve and carry an external PSK: the
//! resolver traits for the client and the server side, the key itself
//! (identity, secret bytes kept in a zeroizing buffer, and the cipher suite
//! that fixes the binder hash), the expected hash length of a suite, and the
//! redacting debug rendering of a key.

pub mod cipher_suite;
pub mod debug_text;
pub mod external_psk;
pub mod secret_bytes;
