//! Content identifiers: fixed-size digests of byte sequences, computed by an
//! outside hash function.

use vstd::prelude::*;

verus! {

/// A fixed-size content identifier: the digest of a byte sequence.
#[derive(Clone, Copy, Debug, PartialEq, Eq)]
pub struct HashValue {
    pub bytes: [u8; 32],
}

impl View for HashValue {
    type V = Seq<u8>;

    open spec fn view(&self) -> Seq<u8> {
        self.bytes@
    }
}

/// The SHA-256 digest of a byte sequence, named after the outside hash
/// function that computes it.
pub uninterp spec fn sha256_of(data: Seq<u8>) -> Seq<u8>;

/// Relies on ring::digest::digest with SHA-256: the digest is 32 bytes and a
/// function of the input bytes alone.
#[verifier::external_body]
pub(crate) fn sha256(data: &Vec<u8>) -> (r: HashValue)
    ensures
        r@ == sha256_of(data@),
{
    let d = ring::digest::digest(&ring::digest::SHA256, data.as_slice());
    let mut bytes = [0u8; 32];
    bytes.copy_from_slice(d.as_ref());
    HashValue { bytes }
}

/// Compares two content identifiers byte for byte.
pub fn hash_eq(a: &HashValue, b: &HashValue) -> (r: bool)
    ensures
        r == (a@ == b@),
{
    crate::wire::bytes32_eq(&a.bytes, &b.bytes)
}

} // verus!
