//! Signed transactions: a transfer of tokens, bound to prior chain state by
//! an ordering token and signed by the sender's keypair.

use vstd::prelude::*;

use crate::hashing::HashValue;
use crate::keys::{ed25519_sig_of, pubkey_of, KeyPair, PublicKey, Signature};
use crate::wire::{push_bytes, push_u64_le, tokens_to_u64};

verus! {

/// A signed transfer of `tokens` from `from` to `to`, bound to prior chain
/// state by the ordering token `last_id`.
#[derive(Clone, Copy, Debug, PartialEq, Eq)]
pub struct Transaction {
    pub from: PublicKey,
    pub to: PublicKey,
    pub tokens: i64,
    pub last_id: HashValue,
    pub sig: Signature,
}

/// The mathematical image of a transaction: each field as a plain value.
#[verifier::ext_equal]
pub struct TransactionView {
    pub from: Seq<u8>,
    pub to: Seq<u8>,
    pub tokens: i64,
    pub last_id: Seq<u8>,
    pub sig: Seq<u8>,
}

impl View for Transaction {
    type V = TransactionView;

    open spec fn view(&self) -> TransactionView {
        TransactionView {
            from: self.from@,
            to: self.to@,
            tokens: self.tokens,
            last_id: self.last_id@,
            sig: self.sig@,
        }
    }
}

/// The bytes a transaction's signature is computed over: sender, recipient,
/// amount and ordering token, in order.
pub open spec fn tx_msg_bytes(from: Seq<u8>, to: Seq<u8>, tokens: i64, last_id: Seq<u8>) -> Seq<
    u8,
> {
    from + to + vstd::bytes::spec_u64_to_le_bytes(tokens_to_u64(tokens)) + last_id
}

/// The one transaction a given signer document, recipient, amount and
/// ordering token determine: the sender is the document's public key, and the
/// signature covers the message bytes of the other fields.
pub open spec fn transaction_spec(
    doc: Seq<u8>,
    to: Seq<u8>,
    tokens: i64,
    last_id: Seq<u8>,
) -> TransactionView {
    TransactionView {
        from: pubkey_of(doc),
        to: to,
        tokens: tokens,
        last_id: last_id,
        sig: ed25519_sig_of(doc, tx_msg_bytes(pubkey_of(doc), to, tokens, last_id)),
    }
}

/// Builds the message bytes that a transaction's signature covers.
pub(crate) fn tx_msg(from: &PublicKey, to: &PublicKey, tokens: i64, last_id: &HashValue) -> (out:
    Vec<u8>)
    ensures
        out@ == tx_msg_bytes(from@, to@, tokens, last_id@),
{
    let mut out: Vec<u8> = Vec::new();
    push_bytes(&mut out, from.bytes.as_slice());
    push_bytes(&mut out, to.bytes.as_slice());
    push_u64_le(&mut out, 0u64.wrapping_add_signed(tokens));
    push_bytes(&mut out, last_id.bytes.as_slice());
    out
}

impl Transaction {
    /// Builds the signed transfer of `tokens` from the signer's own account
    /// to `to`, bound to `last_id`.
    pub fn new(from_keypair: &KeyPair, to: PublicKey, tokens: i64, last_id: HashValue) -> (t:
        Transaction)
        ensures
            t@ == transaction_spec(from_keypair@, to@, tokens, last_id@),
    {
        let from = from_keypair.pubkey();
        let msg = tx_msg(&from, &to, tokens, &last_id);
        let sig = from_keypair.sign(&msg);
        Transaction { from, to, tokens, last_id, sig }
    }
}

} // verus!
