//! Cipher suites, as far as an external PSK needs them.

use vstd::prelude::*;

use crate::debug_text::decimal_text;
use crate::debug_text::lemma_decimal_text_injective;
use crate::debug_text::lemma_decimal_text_reads_back;
use crate::debug_text::push_decimal;

verus! {

/// A TLS cipher suite, named as in the IANA registry: the TLS 1.3 suites,
/// the TLS 1.2 ECDHE suites, and the renegotiation signalling value.
///
/// `Unknown` carries the code point of any suite not listed here.
#[allow(non_camel_case_types)]
#[derive(Clone, Copy, Debug, PartialEq, Eq, Structural)]
pub enum CipherSuite {
    TLS13_AES_128_GCM_SHA256,
    TLS13_AES_256_GCM_SHA384,
    TLS13_CHACHA20_POLY1305_SHA256,
    TLS13_AES_128_CCM_SHA256,
    TLS13_AES_128_CCM_8_SHA256,
    TLS_ECDHE_ECDSA_WITH_AES_128_GCM_SHA256,
    TLS_ECDHE_ECDSA_WITH_AES_256_GCM_SHA384,
    TLS_ECDHE_ECDSA_WITH_CHACHA20_POLY1305_SHA256,
    TLS_ECDHE_RSA_WITH_AES_128_GCM_SHA256,
    TLS_ECDHE_RSA_WITH_AES_256_GCM_SHA384,
    TLS_ECDHE_RSA_WITH_CHACHA20_POLY1305_SHA256,
    TLS_EMPTY_RENEGOTIATION_INFO_SCSV,
    Unknown(u16),
}

/// The `Debug` text of a suite, as `derive(Debug)` writes it: the variant's
/// name, or `Unknown(` the code point in decimal `)`.
pub open spec fn suite_debug_text(suite: CipherSuite) -> Seq<char> {
    match suite {
        CipherSuite::TLS13_AES_128_GCM_SHA256 => "TLS13_AES_128_GCM_SHA256"@,
        CipherSuite::TLS13_AES_256_GCM_SHA384 => "TLS13_AES_256_GCM_SHA384"@,
        CipherSuite::TLS13_CHACHA20_POLY1305_SHA256 => "TLS13_CHACHA20_POLY1305_SHA256"@,
        CipherSuite::TLS13_AES_128_CCM_SHA256 => "TLS13_AES_128_CCM_SHA256"@,
        CipherSuite::TLS13_AES_128_CCM_8_SHA256 => "TLS13_AES_128_CCM_8_SHA256"@,
        CipherSuite::TLS_ECDHE_ECDSA_WITH_AES_128_GCM_SHA256 => "TLS_ECDHE_ECDSA_WITH_AES_128_GCM_SHA256"@,
        CipherSuite::TLS_ECDHE_ECDSA_WITH_AES_256_GCM_SHA384 => "TLS_ECDHE_ECDSA_WITH_AES_256_GCM_SHA384"@,
        CipherSuite::TLS_ECDHE_ECDSA_WITH_CHACHA20_POLY1305_SHA256 => "TLS_ECDHE_ECDSA_WITH_CHACHA20_POLY1305_SHA256"@,
        CipherSuite::TLS_ECDHE_RSA_WITH_AES_128_GCM_SHA256 => "TLS_ECDHE_RSA_WITH_AES_128_GCM_SHA256"@,
        CipherSuite::TLS_ECDHE_RSA_WITH_AES_256_GCM_SHA384 => "TLS_ECDHE_RSA_WITH_AES_256_GCM_SHA384"@,
        CipherSuite::TLS_ECDHE_RSA_WITH_CHACHA20_POLY1305_SHA256 => "TLS_ECDHE_RSA_WITH_CHACHA20_POLY1305_SHA256"@,
        CipherSuite::TLS_EMPTY_RENEGOTIATION_INFO_SCSV => "TLS_EMPTY_RENEGOTIATION_INFO_SCSV"@,
        CipherSuite::Unknown(code) => "Unknown("@ + decimal_text(code as nat) + ")"@,
    }
}

impl CipherSuite {
    /// Appends the `Debug` text of this suite.
    pub fn push_debug_text(&self, out: &mut String)
        ensures
            final(out)@ == old(out)@ + suite_debug_text(*self),
    {
        match self {
            CipherSuite::TLS13_AES_128_GCM_SHA256 => out.append("TLS13_AES_128_GCM_SHA256"),
            CipherSuite::TLS13_AES_256_GCM_SHA384 => out.append("TLS13_AES_256_GCM_SHA384"),
            CipherSuite::TLS13_CHACHA20_POLY1305_SHA256 => out.append("TLS13_CHACHA20_POLY1305_SHA256"),
            CipherSuite::TLS13_AES_128_CCM_SHA256 => out.append("TLS13_AES_128_CCM_SHA256"),
            CipherSuite::TLS13_AES_128_CCM_8_SHA256 => out.append("TLS13_AES_128_CCM_8_SHA256"),
            CipherSuite::TLS_ECDHE_ECDSA_WITH_AES_128_GCM_SHA256 => out.append("TLS_ECDHE_ECDSA_WITH_AES_128_GCM_SHA256"),
            CipherSuite::TLS_ECDHE_ECDSA_WITH_AES_256_GCM_SHA384 => out.append("TLS_ECDHE_ECDSA_WITH_AES_256_GCM_SHA384"),
            CipherSuite::TLS_ECDHE_ECDSA_WITH_CHACHA20_POLY1305_SHA256 => out.append("TLS_ECDHE_ECDSA_WITH_CHACHA20_POLY1305_SHA256"),
            CipherSuite::TLS_ECDHE_RSA_WITH_AES_128_GCM_SHA256 => out.append("TLS_ECDHE_RSA_WITH_AES_128_GCM_SHA256"),
            CipherSuite::TLS_ECDHE_RSA_WITH_AES_256_GCM_SHA384 => out.append("TLS_ECDHE_RSA_WITH_AES_256_GCM_SHA384"),
            CipherSuite::TLS_ECDHE_RSA_WITH_CHACHA20_POLY1305_SHA256 => out.append("TLS_ECDHE_RSA_WITH_CHACHA20_POLY1305_SHA256"),
            CipherSuite::TLS_EMPTY_RENEGOTIATION_INFO_SCSV => out.append("TLS_EMPTY_RENEGOTIATION_INFO_SCSV"),
            CipherSuite::Unknown(code) => {
                let ghost start = out@;
                out.append("Unknown(");
                push_decimal(out, *code);
                out.append(")");
                assert(out@ =~= start + suite_debug_text(*self));
            },
        }
    }
}

/// Different suites have different `Debug` texts.
pub proof fn lemma_suite_debug_text_injective(a: CipherSuite, b: CipherSuite)
    requires
        suite_debug_text(a) == suite_debug_text(b),
    ensures
        a == b,
{
    reveal_strlit("TLS13_AES_128_GCM_SHA256");
    reveal_strlit("TLS13_AES_256_GCM_SHA384");
    reveal_strlit("TLS13_CHACHA20_POLY1305_SHA256");
    reveal_strlit("TLS13_AES_128_CCM_SHA256");
    reveal_strlit("TLS13_AES_128_CCM_8_SHA256");
    reveal_strlit("TLS_ECDHE_ECDSA_WITH_AES_128_GCM_SHA256");
    reveal_strlit("TLS_ECDHE_ECDSA_WITH_AES_256_GCM_SHA384");
    reveal_strlit("TLS_ECDHE_ECDSA_WITH_CHACHA20_POLY1305_SHA256");
    reveal_strlit("TLS_ECDHE_RSA_WITH_AES_128_GCM_SHA256");
    reveal_strlit("TLS_ECDHE_RSA_WITH_AES_256_GCM_SHA384");
    reveal_strlit("TLS_ECDHE_RSA_WITH_CHACHA20_POLY1305_SHA256");
    reveal_strlit("TLS_EMPTY_RENEGOTIATION_INFO_SCSV");
    reveal_strlit("Unknown(");
    reveal_strlit(")");
    let ta = suite_debug_text(a);
    let tb = suite_debug_text(b);
    assert(ta.len() == tb.len());
    assert(ta[0] == tb[0]);
    assert(ta[10] == tb[10]);
    assert(ta[14] == tb[14]);
    assert(ta[23] == tb[23]);
    assert(ta[25] == tb[25]);
    if let CipherSuite::Unknown(x) = a {
        if let CipherSuite::Unknown(y) = b {
            lemma_decimal_text_reads_back(x as nat);
            lemma_decimal_text_reads_back(y as nat);
            assert(ta.subrange(8, ta.len() - 1) =~= decimal_text(x as nat));
            assert(tb.subrange(8, tb.len() - 1) =~= decimal_text(y as nat));
            lemma_decimal_text_injective(x as nat, y as nat);
        }
    }
}

} // verus!
