//! The ledger's root identity: Ed25519 key material, held as its exported
//! PKCS#8 document, with the outside signature scheme behind trusted wrappers.

use vstd::prelude::*;

use crate::error::MintError;
use crate::wire::clone_bytes;

verus! {

/// The public half of a keypair.
#[derive(Clone, Copy, Debug, PartialEq, Eq)]
pub struct PublicKey {
    pub bytes: [u8; 32],
}

impl View for PublicKey {
    type V = Seq<u8>;

    open spec fn view(&self) -> Seq<u8> {
        self.bytes@
    }
}

/// An Ed25519 signature.
#[derive(Clone, Copy, Debug, PartialEq, Eq)]
pub struct Signature {
    pub bytes: [u8; 64],
}

impl View for Signature {
    type V = Seq<u8>;

    open spec fn view(&self) -> Seq<u8> {
        self.bytes@
    }
}

/// Whether `ring::signature::Ed25519KeyPair::from_pkcs8` accepts the
/// document; acceptance depends on the bytes alone.
pub uninterp spec fn pkcs8_valid(doc: Seq<u8>) -> bool;

/// The public key that `from_pkcs8` recovers from a valid document; a
/// function of the document bytes alone.
pub uninterp spec fn pubkey_of(doc: Seq<u8>) -> Seq<u8>;

/// The Ed25519 signature over `msg` by the keypair of a valid document.
/// Ed25519 signing is deterministic, so this is a function of the document
/// and the message alone.
pub uninterp spec fn ed25519_sig_of(doc: Seq<u8>, msg: Seq<u8>) -> Seq<u8>;

/// Relies on ring::signature::Ed25519KeyPair::generate_pkcs8 with
/// ring::rand::SystemRandom: on success the returned document is in the
/// PKCS#8 v2 form that `from_pkcs8` accepts.
#[verifier::external_body]
pub(crate) fn generate_pkcs8_bytes() -> (r: Option<Vec<u8>>)
    ensures
        r is Some ==> pkcs8_valid(r->0@),
{
    let rnd = ring::rand::SystemRandom::new();
    match ring::signature::Ed25519KeyPair::generate_pkcs8(&rnd) {
        Ok(doc) => Some(doc.as_ref().to_vec()),
        Err(_) => None,
    }
}

/// Relies on ring::signature::Ed25519KeyPair::from_pkcs8: whether the
/// document parses depends on its bytes alone.
#[verifier::external_body]
pub(crate) fn pkcs8_parses(doc: &Vec<u8>) -> (r: bool)
    ensures
        r == pkcs8_valid(doc@),
{
    ring::signature::Ed25519KeyPair::from_pkcs8(doc.as_slice()).is_ok()
}

/// Relies on ring::signature::Ed25519KeyPair::from_pkcs8 and
/// ring::signature::KeyPair::public_key: the public key recovered from a
/// valid document is a function of the document alone.
#[verifier::external_body]
pub(crate) fn pubkey_from_pkcs8(doc: &Vec<u8>) -> (r: PublicKey)
    requires
        pkcs8_valid(doc@),
    ensures
        r@ == pubkey_of(doc@),
{
    let kp = ring::signature::Ed25519KeyPair::from_pkcs8(doc.as_slice()).unwrap();
    let mut bytes = [0u8; 32];
    bytes.copy_from_slice(ring::signature::KeyPair::public_key(&kp).as_ref());
    PublicKey { bytes }
}

/// Relies on ring::signature::Ed25519KeyPair::from_pkcs8 and
/// ring::signature::Ed25519KeyPair::sign: Ed25519 signing draws no
/// randomness, so the signature is a function of the document and the
/// message alone.
#[verifier::external_body]
pub(crate) fn sign_with_pkcs8(doc: &Vec<u8>, msg: &Vec<u8>) -> (r: Signature)
    requires
        pkcs8_valid(doc@),
    ensures
        r@ == ed25519_sig_of(doc@, msg@),
{
    let kp = ring::signature::Ed25519KeyPair::from_pkcs8(doc.as_slice()).unwrap();
    let sig = kp.sign(msg.as_slice());
    let mut bytes = [0u8; 64];
    bytes.copy_from_slice(sig.as_ref());
    Signature { bytes }
}

/// A usable signing keypair, reconstituted from an exported PKCS#8 document
/// that is known to parse. Its view is the document's bytes.
pub struct KeyPair {
    secret: Vec<u8>,
}

impl View for KeyPair {
    type V = Seq<u8>;

    closed spec fn view(&self) -> Seq<u8> {
        self.secret@
    }
}

impl KeyPair {
    #[verifier::type_invariant]
    spec fn wf(self) -> bool {
        pkcs8_valid(self.secret@)
    }

    /// Reconstitutes a keypair from an exported PKCS#8 document, accepting
    /// exactly the documents that the signature scheme parses.
    pub fn from_pkcs8(doc: Vec<u8>) -> (r: Result<KeyPair, MintError>)
        ensures
            r is Ok <==> pkcs8_valid(doc@),
            r is Ok ==> r->Ok_0@ == doc@,
            r is Err ==> r->Err_0 == MintError::Reconstitution,
    {
        if pkcs8_parses(&doc) {
            Ok(KeyPair { secret: doc })
        } else {
            Err(MintError::Reconstitution)
        }
    }

    /// The public half of this keypair.
    pub fn pubkey(&self) -> (r: PublicKey)
        ensures
            r@ == pubkey_of(self@),
    {
        proof {
            use_type_invariant(self);
        }
        pubkey_from_pkcs8(&self.secret)
    }

    /// Signs a message with this keypair.
    pub fn sign(&self, msg: &Vec<u8>) -> (r: Signature)
        ensures
            r@ == ed25519_sig_of(self@, msg@),
    {
        proof {
            use_type_invariant(self);
        }
        sign_with_pkcs8(&self.secret, msg)
    }

    /// A copy of the exported document this keypair was reconstituted from.
    pub fn pkcs8_bytes(&self) -> (r: Vec<u8>)
        ensures
            r@ == self@,
    {
        clone_bytes(&self.secret)
    }
}

} // verus!
