//! Secret bytes held in `zeroize::Zeroizing`, which wipes them on drop.

use vstd::prelude::*;
use zeroize::Zeroizing;

verus! {

/// A byte buffer that is zeroized on drop.
///
/// It holds a `zeroize::Zeroizing<Vec<u8>>`, whose `Drop` impl wipes the
/// vector. The buffer is opaque to proofs: what it holds is named by
/// `zeroized_bytes`, and only `zeroizing_new` and `zeroizing_as_slice` touch
/// it.
#[verifier::external_body]
pub struct SecretBytes {
    inner: Zeroizing<Vec<u8>>,
}

/// The bytes that a `SecretBytes` holds (until it is dropped).
pub uninterp spec fn zeroized_bytes(s: SecretBytes) -> Seq<u8>;

/// Calls `zeroize::Zeroizing::new`, which moves the vector into the wrapper
/// unchanged: the buffer then holds exactly the given bytes.
#[verifier::external_body]
pub(crate) fn zeroizing_new(bytes: Vec<u8>) -> (s: SecretBytes)
    ensures
        zeroized_bytes(s) == bytes@,
{
    SecretBytes { inner: Zeroizing::new(bytes) }
}

/// Reads the bytes through `Zeroizing`'s `Deref` impl, which returns a
/// reference to the wrapped vector: the slice is exactly the held bytes.
#[verifier::external_body]
pub(crate) fn zeroizing_as_slice(s: &SecretBytes) -> (bytes: &[u8])
    ensures
        bytes@ == zeroized_bytes(*s),
{
    s.inner.as_slice()
}

} // verus!
