//! The genesis-state constructor: a freshly generated root identity together
//! with the derived seed, funding event and two-entry chain, and the byte
//! record a mint is persisted as.

use vstd::prelude::*;

use crate::entry::{entries_view, entry_spec, Entry, EntryView};
use crate::error::MintError;
use crate::event::{events_view, Event, EventView};
use crate::hashing::{sha256, sha256_of, HashValue};
use crate::keys::{pkcs8_parses, pkcs8_valid, pubkey_from_pkcs8, pubkey_of, generate_pkcs8_bytes};
use crate::keys::{KeyPair, PublicKey};
use crate::transaction::{transaction_spec, Transaction};
use crate::wire::{
    clone_bytes, push_bytes, push_u64_le, read_32, bytes32_eq, tokens_to_u64, u64_to_tokens,
    lemma_tokens_round_trip,
};

verus! {

/// The mathematical image of a mint: its stored fields as plain values.
#[verifier::ext_equal]
pub struct MintView {
    pub pkcs8: Seq<u8>,
    pub pubkey: Seq<u8>,
    pub tokens: i64,
}

/// What every mint's stored fields satisfy: the secret material parses, and
/// the cached public key is the one recoverable from it.
pub open spec fn mint_record_wf(m: MintView) -> bool {
    &&& pkcs8_valid(m.pkcs8)
    &&& m.pubkey == pubkey_of(m.pkcs8)
    &&& m.pubkey.len() == 32
    &&& m.pkcs8.len() <= u64::MAX
}

/// The seed: the digest of the mint's secret material, and the root anchor
/// of its chain.
pub open spec fn seed_spec(m: MintView) -> Seq<u8> {
    sha256_of(m.pkcs8)
}

/// The one event list a mint determines: a single self-transfer of the whole
/// initial supply, signed by the mint's keypair and bound to the seed.
pub open spec fn events_spec(m: MintView) -> Seq<EventView> {
    seq![EventView::Transaction(transaction_spec(m.pkcs8, m.pubkey, m.tokens, seed_spec(m)))]
}

/// The two-entry genesis chain a mint determines: a content-free root entry
/// anchored to the seed, then an entry anchored to the root's id and carrying
/// the funding event.
pub open spec fn entries_spec(m: MintView) -> Seq<EntryView> {
    let e0 = entry_spec(seed_spec(m), 0, Seq::empty());
    let e1 = entry_spec(e0.id, 0, events_spec(m));
    seq![e0, e1]
}

/// The root entity: freshly generated secret key material, its cached public
/// key, and the initial token supply minted to the root account.
#[derive(Debug)]
pub struct Mint {
    pkcs8: Vec<u8>,
    pubkey: PublicKey,
    tokens: i64,
}

impl View for Mint {
    type V = MintView;

    closed spec fn view(&self) -> MintView {
        MintView { pkcs8: self.pkcs8@, pubkey: self.pubkey@, tokens: self.tokens }
    }
}

impl Mint {
    #[verifier::type_invariant]
    spec fn wf(self) -> bool {
        mint_record_wf(self@)
    }

    /// Generates a fresh keypair and builds the mint that owns it. Fails only
    /// if the random source or the keypair provider cannot produce key
    /// material; the supply is not validated here.
    pub fn new(tokens: i64) -> (r: Result<Mint, MintError>)
        ensures
            r is Ok ==> r->Ok_0@.tokens == tokens,
            r is Err ==> r->Err_0 == MintError::KeyGeneration,
    {
        match generate_pkcs8_bytes() {
            Some(pkcs8) => {
                proof {
                    vstd::std_specs::vec::axiom_spec_len(&pkcs8);
                    assert(pkcs8@.len() <= u64::MAX);
                }
                let pubkey = pubkey_from_pkcs8(&pkcs8);
                Ok(Mint { pkcs8, pubkey, tokens })
            },
            None => Err(MintError::KeyGeneration),
        }
    }

    /// The seed: the digest of the stored secret material. Deterministic and
    /// recomputed on demand.
    pub fn seed(&self) -> (h: HashValue)
        ensures
            h@ == seed_spec(self@),
    {
        sha256(&self.pkcs8)
    }

    /// Reconstitutes the signing keypair from the stored secret material on
    /// every call; the stored material is valid by construction, so this
    /// cannot fail.
    pub fn keypair(&self) -> (kp: KeyPair)
        ensures
            kp@ == self@.pkcs8,
    {
        proof {
            use_type_invariant(self);
        }
        let doc = clone_bytes(&self.pkcs8);
        match KeyPair::from_pkcs8(doc) {
            Ok(kp) => kp,
            Err(_) => vstd::pervasive::unreached(),
        }
    }

    /// The public half of the mint's keypair, cached at construction.
    pub fn pubkey(&self) -> (pk: PublicKey)
        ensures
            pk@ == self@.pubkey,
    {
        self.pubkey
    }

    /// The initial token supply.
    pub fn tokens(&self) -> (t: i64)
        ensures
            t == self@.tokens,
    {
        self.tokens
    }

    /// The exported secret key material.
    pub fn pkcs8(&self) -> (b: &Vec<u8>)
        ensures
            b@ == self@.pkcs8,
    {
        &self.pkcs8
    }

    /// Builds the mint's event list: one transaction paying the whole supply
    /// from the mint's account to that same account, bound to the seed.
    pub fn create_events(&self) -> (r: Vec<Event>)
        ensures
            events_view(r@) == events_spec(self@),
    {
        proof {
            use_type_invariant(self);
        }
        let keypair = self.keypair();
        let tr = Transaction::new(&keypair, self.pubkey(), self.tokens, self.seed());
        let mut r: Vec<Event> = Vec::new();
        r.push(Event::Transaction(tr));
        proof {
            assert(events_view(r@) =~= events_spec(self@));
        }
        r
    }

    /// Builds the two-entry genesis chain: a content-free entry anchored to
    /// the seed, then an entry anchored to the first entry's id and carrying
    /// the funding event.
    pub fn create_entries(&self) -> (r: Vec<Entry>)
        ensures
            entries_view(r@) == entries_spec(self@),
    {
        let seed = self.seed();
        let e0 = crate::entry::create_entry(&seed, 0, Vec::new());
        let id0 = e0.id;
        let e1 = crate::entry::create_entry(&id0, 0, self.create_events());
        proof {
            assert(events_view(Seq::<Event>::empty()) =~= Seq::<EventView>::empty());
            assert(e0@ =~= entries_spec(self@)[0]);
            assert(e1@ =~= entries_spec(self@)[1]);
        }
        let mut r: Vec<Entry> = Vec::new();
        r.push(e0);
        r.push(e1);
        proof {
            assert(entries_view(r@) =~= entries_spec(self@));
        }
        r
    }

    /// Serializes the mint as its persisted record: the secret material with
    /// its length, the public key, and the token supply.
    pub fn to_bytes(&self) -> (out: Vec<u8>)
        ensures
            out@ == mint_bytes(self@),
            mint_record_wf(self@),
    {
        proof {
            use_type_invariant(self);
        }
        let mut out: Vec<u8> = Vec::new();
        push_u64_le(&mut out, self.pkcs8.len() as u64);
        push_bytes(&mut out, self.pkcs8.as_slice());
        push_bytes(&mut out, self.pubkey.bytes.as_slice());
        push_u64_le(&mut out, 0u64.wrapping_add_signed(self.tokens));
        out
    }

    /// Deserializes a persisted record back into a mint, accepting exactly
    /// the records whose layout parses, whose secret material the keypair
    /// provider accepts, and whose stored public key is the one recoverable
    /// from that material; anything else signals corruption.
    pub fn from_bytes(bytes: &Vec<u8>) -> (r: Result<Mint, MintError>)
        ensures
            r is Ok <==> (spec_decode_record(bytes@) matches Some(m) && pkcs8_valid(m.pkcs8)
                && m.pubkey == pubkey_of(m.pkcs8)),
            r is Ok ==> r->Ok_0@ == spec_decode_record(bytes@)->Some_0,
            r is Err ==> r->Err_0 == MintError::Reconstitution,
    {
        let n_total = bytes.len();
        if n_total < 48 {
            return Err(MintError::Reconstitution);
        }
        let s = bytes.as_slice();
        let len_field = vstd::bytes::u64_from_le_bytes(&s[0..8]);
        proof {
            assert(s@.subrange(0, 8) == bytes@.subrange(0, 8));
        }
        let n_pkcs8 = n_total - 48;
        if len_field != n_pkcs8 as u64 {
            proof {
                assert(spec_decode_record(bytes@) is None);
            }
            return Err(MintError::Reconstitution);
        }
        let mut pkcs8: Vec<u8> = Vec::new();
        push_bytes(&mut pkcs8, &s[8..8 + n_pkcs8]);
        let pubkey_stored = read_32(s, 8 + n_pkcs8);
        let tokens_field = vstd::bytes::u64_from_le_bytes(&s[n_total - 8..n_total]);
        let tokens = 0i64.wrapping_add_unsigned(tokens_field);
        proof {
            let m = spec_decode_record(bytes@)->Some_0;
            assert(pkcs8@ == m.pkcs8);
            assert(pubkey_stored@ == bytes@.subrange(8 + n_pkcs8 as int, 8 + n_pkcs8 + 32));
            assert(pubkey_stored@ == m.pubkey);
            assert(s@.subrange(n_total - 8, n_total as int) == bytes@.subrange(
                bytes@.len() - 8,
                bytes@.len() as int,
            ));
            assert(tokens == m.tokens);
        }
        if !pkcs8_parses(&pkcs8) {
            return Err(MintError::Reconstitution);
        }
        let pubkey_derived = pubkey_from_pkcs8(&pkcs8);
        if !bytes32_eq(&pubkey_stored, &pubkey_derived.bytes) {
            return Err(MintError::Reconstitution);
        }
        proof {
            assert(MintView {
                pkcs8: pkcs8@,
                pubkey: pubkey_stored@,
                tokens: tokens,
            } =~= spec_decode_record(bytes@)->Some_0);
        }
        Ok(Mint { pkcs8, pubkey: PublicKey { bytes: pubkey_stored }, tokens })
    }
}

/// The persisted form of a mint: the secret material's length in eight
/// little-endian bytes, the secret material, the 32-byte public key, and the
/// token supply's unsigned image in eight little-endian bytes.
pub open spec fn mint_bytes(m: MintView) -> Seq<u8>
    recommends
        m.pkcs8.len() <= u64::MAX,
{
    vstd::bytes::spec_u64_to_le_bytes(m.pkcs8.len() as u64) + m.pkcs8 + m.pubkey
        + vstd::bytes::spec_u64_to_le_bytes(tokens_to_u64(m.tokens))
}

/// Parses a persisted record's layout: the length field must account for the
/// whole record, with 32 bytes of public key and 8 of supply after the secret
/// material. Validity of the key material itself is checked separately, by
/// whoever reconstitutes the mint.
pub open spec fn spec_decode_record(s: Seq<u8>) -> Option<MintView> {
    if s.len() >= 48 && vstd::bytes::spec_u64_from_le_bytes(s.subrange(0, 8)) == s.len() - 48 {
        Some(
            MintView {
                pkcs8: s.subrange(8, s.len() - 40),
                pubkey: s.subrange(s.len() - 40, s.len() - 8),
                tokens: u64_to_tokens(
                    vstd::bytes::spec_u64_from_le_bytes(s.subrange(s.len() - 8, s.len() as int)),
                ),
            },
        )
    } else {
        None
    }
}

/// Law: deserializing a serialized mint record yields the record unchanged,
/// so a mint survives the round trip with its seed, public key, supply,
/// events and entries intact.
pub proof fn lemma_mint_round_trip(m: MintView)
    requires
        mint_record_wf(m),
    ensures
        spec_decode_record(mint_bytes(m)) == Some(m),
        seed_spec(spec_decode_record(mint_bytes(m))->Some_0) == seed_spec(m),
        events_spec(spec_decode_record(mint_bytes(m))->Some_0) == events_spec(m),
        entries_spec(spec_decode_record(mint_bytes(m))->Some_0) == entries_spec(m),
{
    vstd::bytes::lemma_auto_spec_u64_to_from_le_bytes();
    let b = mint_bytes(m);
    let n = m.pkcs8.len();
    assert(b.len() == 8 + n + 32 + 8);
    assert(b.subrange(0, 8) =~= vstd::bytes::spec_u64_to_le_bytes(n as u64));
    assert(vstd::bytes::spec_u64_from_le_bytes(b.subrange(0, 8)) == n as u64);
    assert(b.subrange(8, b.len() - 40) =~= m.pkcs8);
    assert(b.subrange(b.len() - 40, b.len() - 8) =~= m.pubkey);
    assert(b.subrange(b.len() - 8, b.len() as int) =~= vstd::bytes::spec_u64_to_le_bytes(
        tokens_to_u64(m.tokens),
    ));
    lemma_tokens_round_trip(m.tokens);
    assert(spec_decode_record(b)->Some_0 =~= m);
}

/// Law: the seed, the event list and the entry chain are functions of the
/// mint's stored fields alone, so repeated calls on one mint yield
/// value-equal results.
pub proof fn lemma_mint_deterministic(
    m: MintView,
    s1: Seq<u8>,
    s2: Seq<u8>,
    ev1: Seq<EventView>,
    ev2: Seq<EventView>,
    en1: Seq<EntryView>,
    en2: Seq<EntryView>,
)
    requires
        s1 == seed_spec(m),
        s2 == seed_spec(m),
        ev1 == events_spec(m),
        ev2 == events_spec(m),
        en1 == entries_spec(m),
        en2 == entries_spec(m),
    ensures
        s1 == s2,
        ev1 == ev2,
        en1 == en2,
{
}

/// Law: a mint's event list holds exactly one event: a transaction whose
/// sender and recipient are both the mint's own public key, paying the whole
/// supply and bound to the seed.
pub proof fn lemma_single_self_transfer(m: MintView)
    requires
        mint_record_wf(m),
    ensures
        events_spec(m).len() == 1,
        events_spec(m)[0] matches EventView::Transaction(t) && t.from == t.to && t.from == m.pubkey
            && t.tokens == m.tokens && t.last_id == seed_spec(m),
{
}

/// Law: a mint's chain holds exactly two entries: a content-free root entry
/// anchored to the seed, then an entry anchored to the root's id and carrying
/// the mint's event list.
pub proof fn lemma_two_entry_chain(m: MintView)
    ensures
        entries_spec(m).len() == 2,
        entries_spec(m)[0].prev_id == seed_spec(m),
        entries_spec(m)[0].counter == 0,
        entries_spec(m)[0].events.len() == 0,
        entries_spec(m)[1].prev_id == entries_spec(m)[0].id,
        entries_spec(m)[1].counter == 0,
        entries_spec(m)[1].events == events_spec(m),
{
}

} // verus!
