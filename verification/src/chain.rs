//! The chain verifier: checks that a sequence of entries forms a correctly
//! linked chain starting from a known id.

use vstd::prelude::*;

use crate::entry::{compute_entry_id, entries_view, entry_id_spec, Entry, EntryView};
use crate::hashing::{hash_eq, HashValue};
use crate::mint::{entries_spec, seed_spec, MintView};

verus! {

/// Whether `entries` is a correctly linked chain anchored at `start`: each
/// entry's predecessor id matches the running id, and each entry's own id is
/// the one its contents determine.
pub open spec fn verify_spec(entries: Seq<EntryView>, start: Seq<u8>) -> bool
    decreases entries.len(),
{
    if entries.len() == 0 {
        true
    } else {
        let e = entries[0];
        &&& e.prev_id == start
        &&& e.id == entry_id_spec(e.prev_id, e.counter, e.events)
        &&& verify_spec(entries.drop_first(), e.id)
    }
}

/// Checks that `entries` forms a correctly linked chain starting from
/// `start`.
pub fn verify_slice(entries: &Vec<Entry>, start: &HashValue) -> (r: bool)
    ensures
        r == verify_spec(entries_view(entries@), start@),
{
    let ghost all = entries_view(entries@);
    let mut i: usize = 0;
    let mut cur: HashValue = *start;
    proof {
        assert(all.skip(0) =~= all);
    }
    while i < entries.len()
        invariant
            i <= entries@.len(),
            all == entries_view(entries@),
            verify_spec(all, start@) == verify_spec(all.skip(i as int), cur@),
        decreases entries@.len() - i,
    {
        let e = &entries[i];
        proof {
            assert(all.skip(i as int)[0] == entries@[i as int]@);
            assert(all.skip(i as int).drop_first() =~= all.skip(i + 1));
        }
        if !hash_eq(&e.prev_id, &cur) {
            return false;
        }
        let id = compute_entry_id(&e.prev_id, e.counter, &e.events);
        if !hash_eq(&e.id, &id) {
            return false;
        }
        cur = e.id;
        i = i + 1;
    }
    proof {
        assert(all.skip(i as int) =~= Seq::<EntryView>::empty());
    }
    true
}

/// Law: a chain whose first entry is not anchored at the expected root id is
/// rejected, whatever the rest of it holds.
pub proof fn lemma_verify_rejects_wrong_anchor(entries: Seq<EntryView>, start: Seq<u8>)
    requires
        entries.len() > 0,
        entries[0].prev_id != start,
    ensures
        !verify_spec(entries, start),
{
}

/// Law: the chain verifier accepts a mint's freshly constructed two-entry
/// chain when started from the mint's seed.
pub proof fn lemma_genesis_chain_verifies(m: MintView)
    ensures
        verify_spec(entries_spec(m), seed_spec(m)),
{
    let es = entries_spec(m);
    let e1 = es[1];
    assert(es.drop_first() =~= seq![e1]);
    assert(seq![e1].drop_first() =~= Seq::<EntryView>::empty());
    assert(verify_spec(Seq::<EntryView>::empty(), e1.id));
    assert(verify_spec(seq![e1], es[0].id));
    assert(verify_spec(es, seed_spec(m)));
}

} // verus!
