//! External pre-shared keys for TLS 1.3 (RFC 8446, section 4.2.11).
//!
//! External PSKs are provisioned out of band rather than through a
//! NewSessionTicket, and their binder key is derived with the `"ext binder"`
//! label. When a resolver is configured and finds a key, external PSK
//! authentication takes priority over ticket-based resumption.

use vstd::prelude::*;

use crate::cipher_suite::suite_debug_text;
use crate::cipher_suite::lemma_suite_debug_text_injective;
use crate::cipher_suite::CipherSuite;
use crate::debug_text::byte_items_text;
use crate::debug_text::byte_list_text;
use crate::debug_text::is_item_char;
use crate::debug_text::lemma_byte_items_injective;
use crate::debug_text::lemma_byte_items_shape;
use crate::debug_text::push_byte_list;
use crate::secret_bytes::zeroized_bytes;
use crate::secret_bytes::zeroizing_as_slice;
use crate::secret_bytes::zeroizing_new;
use crate::secret_bytes::SecretBytes;

verus! {

/// Server-side external PSK resolver.
///
/// Called while a TLS 1.3 ClientHello is processed, when the client offers
/// PSK identities: the server calls `resolve` for each offered identity in
/// turn and selects the first one for which it returns `Some`. When none
/// does, the server falls back to ticket-based resumption, then to a full
/// handshake.
pub trait ResolvesServerPsk: core::fmt::Debug + Send + Sync {
    /// Given a PSK identity offered by the client, returns the pre-shared
    /// key bytes for it, or `None` to reject this identity.
    fn resolve(&self, identity: &[u8]) -> Option<Vec<u8>>;
}

/// Client-side external PSK resolver.
///
/// Called while a TLS 1.3 ClientHello is built. When it returns a key, its
/// identity goes into the `pre_shared_key` extension with a binder computed
/// with the `"ext binder"` key; when it returns `None`, no external PSK is
/// offered and the client goes on with certificate authentication (or
/// ticket-based resumption).
pub trait ResolvesClientPsk: core::fmt::Debug + Send + Sync {
    /// Returns a PSK identity and secret to offer in the ClientHello.
    /// `server_name` is the SNI value, if one is being sent.
    fn resolve(&self, server_name: Option<&str>) -> Option<ExternalPsk>;
}

/// An external pre-shared key for TLS 1.3.
///
/// The cipher suite fixes the hash algorithm of the binder key derivation;
/// any TLS 1.3 suite with the same hash algorithm works with the key. The
/// default, per RFC 8446, is SHA-256 (`TLS13_AES_128_GCM_SHA256`). The
/// secret is zeroized on drop.
///
/// Contracts speak of a key through its view `@`. Within this crate,
/// `group_view_matches_fields` ties the view to the public fields; the
/// `secret` field is private to the crate, so crates outside reason about a
/// key only through `@`.
#[non_exhaustive]
pub struct ExternalPsk {
    /// The identity sent to the server; opaque to TLS.
    pub identity: Vec<u8>,
    /// The pre-shared key bytes, zeroized on drop.
    pub(crate) secret: SecretBytes,
    /// The TLS 1.3 cipher suite whose hash algorithm the binder uses.
    pub cipher_suite: CipherSuite,
}

/// What an `ExternalPsk` holds: identity, secret and cipher suite.
pub struct ExternalPskView {
    pub identity: Seq<u8>,
    pub secret: Seq<u8>,
    pub cipher_suite: CipherSuite,
}

impl ExternalPskView {
    /// A key made from an identity and a secret, with the default suite.
    pub open spec fn fresh(identity: Seq<u8>, secret: Seq<u8>) -> ExternalPskView {
        ExternalPskView {
            identity,
            secret,
            cipher_suite: CipherSuite::TLS13_AES_128_GCM_SHA256,
        }
    }

    /// The same key with another cipher suite.
    pub open spec fn with_suite(self, cipher_suite: CipherSuite) -> ExternalPskView {
        ExternalPskView { cipher_suite, ..self }
    }

    /// The `Debug` text of the key: identity and cipher suite in the clear,
    /// the secret replaced by the marker `"[redacted]"`.
    pub open spec fn debug_text(self) -> Seq<char> {
        "ExternalPsk { identity: "@ + byte_list_text(self.identity) + redaction_text()
            + suite_debug_text(self.cipher_suite) + " }"@
    }
}

/// The fixed text that stands in the `Debug` text in place of the secret.
pub open spec fn redaction_text() -> Seq<char> {
    ", secret: \"[redacted]\", cipher_suite: "@
}

impl View for ExternalPsk {
    type V = ExternalPskView;

    closed spec fn view(&self) -> ExternalPskView {
        ExternalPskView {
            identity: self.identity@,
            secret: zeroized_bytes(self.secret),
            cipher_suite: self.cipher_suite,
        }
    }
}

/// Inside this crate, the view's identity is the public field `identity`.
///
/// The field `secret` is private to the crate, so crates outside cannot name
/// the fields in proofs and reason about a key only through its view `@`.
pub(crate) broadcast proof fn lemma_view_identity(psk: &ExternalPsk)
    ensures
        psk@.identity == (#[trigger] psk.identity)@,
{
}

/// Inside this crate, the view's cipher suite is the public field
/// `cipher_suite`.
pub(crate) broadcast proof fn lemma_view_cipher_suite(psk: &ExternalPsk)
    ensures
        psk@.cipher_suite == #[trigger] psk.cipher_suite,
{
}

/// The two facts that tie a key's view to its public fields.
pub(crate) broadcast group group_view_matches_fields {
    lemma_view_identity,
    lemma_view_cipher_suite,
}

impl ExternalPsk {
    /// Creates an external PSK with the given identity and secret.
    ///
    /// The hash algorithm defaults to SHA-256, through
    /// `CipherSuite::TLS13_AES_128_GCM_SHA256`; `with_cipher_suite` sets
    /// another.
    pub fn new(identity: Vec<u8>, secret: Vec<u8>) -> (psk: Self)
        ensures
            psk@ == ExternalPskView::fresh(identity@, secret@),
    {
        ExternalPsk {
            identity,
            secret: zeroizing_new(secret),
            cipher_suite: CipherSuite::TLS13_AES_128_GCM_SHA256,
        }
    }

    /// Sets the cipher suite (and so the hash algorithm) of this key.
    pub fn with_cipher_suite(self, cipher_suite: CipherSuite) -> (psk: Self)
        ensures
            psk@ == self@.with_suite(cipher_suite),
    {
        let mut psk = self;
        psk.cipher_suite = cipher_suite;
        psk
    }

    /// The pre-shared key bytes.
    pub fn secret(&self) -> (bytes: &[u8])
        ensures
            bytes@ == self@.secret,
    {
        zeroizing_as_slice(&self.secret)
    }

    /// The `Debug` text of this key, with the secret redacted.
    pub fn debug_string(&self) -> (text: String)
        ensures
            text@ == self@.debug_text(),
    {
        let mut out = String::new();
        out.append("ExternalPsk { identity: ");
        push_byte_list(&mut out, self.identity.as_slice());
        out.append(", secret: \"[redacted]\", cipher_suite: ");
        self.cipher_suite.push_debug_text(&mut out);
        out.append(" }");
        assert(out@ =~= self@.debug_text());
        out
    }
}

/// The hash output length, in bytes, of the suite's hash algorithm: 48 for
/// the SHA-384 suite, 32 for the others (SHA-256).
pub open spec fn hash_len_of(suite: CipherSuite) -> nat {
    if suite == CipherSuite::TLS13_AES_256_GCM_SHA384 {
        48
    } else {
        32
    }
}

/// Returns the expected hash output length for a TLS 1.3 cipher suite.
pub fn expected_hash_len(suite: CipherSuite) -> (len: usize)
    ensures
        len == hash_len_of(suite),
{
    match suite {
        CipherSuite::TLS13_AES_256_GCM_SHA384 => 48,
        _ => 32,
    }
}

/// A key gives back the secret and the identity it was made with, whatever
/// cipher suite has been set on it since.
pub proof fn lemma_secret_reads_back(identity: Seq<u8>, secret: Seq<u8>, suite: CipherSuite)
    ensures
        ExternalPskView::fresh(identity, secret).secret == secret,
        ExternalPskView::fresh(identity, secret).identity == identity,
        ExternalPskView::fresh(identity, secret).with_suite(suite).secret == secret,
        ExternalPskView::fresh(identity, secret).with_suite(suite).identity == identity,
        ExternalPskView::fresh(identity, secret).with_suite(suite).cipher_suite == suite,
{
}

/// A new key uses a SHA-256 suite: its binder hash is 32 bytes long.
pub proof fn lemma_default_suite_is_sha256(identity: Seq<u8>, secret: Seq<u8>)
    ensures
        hash_len_of(ExternalPskView::fresh(identity, secret).cipher_suite) == 32,
{
}

/// Setting the cipher suite twice leaves the last one set, and changes
/// nothing else about the key.
pub proof fn lemma_last_cipher_suite_wins(key: ExternalPskView, first: CipherSuite, second: CipherSuite)
    ensures
        key.with_suite(first).with_suite(second) == key.with_suite(second),
        key.with_suite(second).identity == key.identity,
        key.with_suite(second).secret == key.secret,
{
}

/// The `Debug` text of a key does not depend on its secret: two keys with
/// the same identity and cipher suite have the same text.
pub proof fn lemma_debug_text_ignores_secret(a: ExternalPskView, b: ExternalPskView)
    requires
        a.identity == b.identity,
        a.cipher_suite == b.cipher_suite,
    ensures
        a.debug_text() == b.debug_text(),
{
}

/// The `Debug` text of every key shows the redaction marker right after the
/// identity, where the secret's field stands.
pub proof fn lemma_debug_text_shows_redaction(key: ExternalPskView)
    ensures
        ({
            let start = ("ExternalPsk { identity: "@.len() + byte_list_text(key.identity).len()) as int;
            key.debug_text().subrange(start, start + redaction_text().len() as int) == redaction_text()
        }),
{
    let head = "ExternalPsk { identity: "@ + byte_list_text(key.identity);
    let text = key.debug_text();
    assert(text =~= head + redaction_text() + (suite_debug_text(key.cipher_suite) + " }"@));
    assert(text.subrange(head.len() as int, head.len() + redaction_text().len() as int)
        =~= redaction_text());
}

/// The `Debug` text of a key determines the key's identity and cipher suite:
/// two keys whose identities differ, or whose suites differ, have different
/// texts. (With `lemma_debug_text_ignores_secret`, the text depends on
/// exactly these two.)
pub proof fn lemma_debug_text_determines_identity_and_suite(a: ExternalPskView, b: ExternalPskView)
    requires
        a.debug_text() == b.debug_text(),
    ensures
        a.identity == b.identity,
        a.cipher_suite == b.cipher_suite,
{
    reveal_strlit("[");
    reveal_strlit("]");
    reveal_strlit(" }");
    let head = "ExternalPsk { identity: "@ + "["@;
    let ia = byte_items_text(a.identity);
    let ib = byte_items_text(b.identity);
    let qa = "]"@ + redaction_text() + suite_debug_text(a.cipher_suite) + " }"@;
    let qb = "]"@ + redaction_text() + suite_debug_text(b.cipher_suite) + " }"@;
    let text = a.debug_text();
    assert(text =~= head + (ia + qa));
    assert(b.debug_text() =~= head + (ib + qb));
    let rest = text.subrange(head.len() as int, text.len() as int);
    assert(rest =~= ia + qa);
    assert(rest =~= ib + qb);
    lemma_byte_items_shape(a.identity);
    lemma_byte_items_shape(b.identity);
    assert(qa[0] == ']');
    assert(qb[0] == ']');
    if ia.len() < ib.len() {
        assert(rest[ia.len() as int] == qa[0]);
        assert(rest[ia.len() as int] == ib[ia.len() as int]);
        assert(is_item_char(ib[ia.len() as int]));
        assert(false);
    }
    if ib.len() < ia.len() {
        assert(rest[ib.len() as int] == qb[0]);
        assert(rest[ib.len() as int] == ia[ib.len() as int]);
        assert(is_item_char(ia[ib.len() as int]));
        assert(false);
    }
    assert(ia =~= rest.subrange(0, ia.len() as int));
    assert(ib =~= rest.subrange(0, ib.len() as int));
    lemma_byte_items_injective(a.identity, b.identity);
    let start = 1 + redaction_text().len();
    assert(qa.subrange(start as int, qa.len() - 2) =~= suite_debug_text(a.cipher_suite));
    assert(qb.subrange(start as int, qb.len() - 2) =~= suite_debug_text(b.cipher_suite));
    assert(qa =~= rest.subrange(ia.len() as int, rest.len() as int));
    assert(qb =~= rest.subrange(ib.len() as int, rest.len() as int));
    lemma_suite_debug_text_injective(a.cipher_suite, b.cipher_suite);
}

/// The `Debug` text of a key starts with `ExternalPsk { identity: ` and the
/// byte list of the key's own identity, and ends with the `Debug` text of the
/// key's own cipher suite and ` }`; the redaction marker stands between them
/// (see `lemma_debug_text_shows_redaction`).
pub proof fn lemma_debug_text_layout(key: ExternalPskView)
    ensures
        ({
            let text = key.debug_text();
            let head = "ExternalPsk { identity: "@ + byte_list_text(key.identity);
            let tail = suite_debug_text(key.cipher_suite) + " }"@;
            &&& text.len() == head.len() + redaction_text().len() + tail.len()
            &&& text.subrange(0, head.len() as int) == head
            &&& text.subrange(text.len() - tail.len(), text.len() as int) == tail
        }),
{
    let text = key.debug_text();
    let head = "ExternalPsk { identity: "@ + byte_list_text(key.identity);
    let tail = suite_debug_text(key.cipher_suite) + " }"@;
    assert(text =~= head + redaction_text() + tail);
    assert(text.subrange(0, head.len() as int) =~= head);
    assert(text.subrange(text.len() - tail.len(), text.len() as int) =~= tail);
}

} // verus!
