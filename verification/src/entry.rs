//! Chain entries: immutable elements of the ledger's hash chain, each
//! identified by a content-derived id and linked to its predecessor's id.

use vstd::prelude::*;

use crate::event::{events_bytes, events_view, push_events_bytes, Event, EventView};
use crate::hashing::{sha256, sha256_of, HashValue};
use crate::wire::{push_bytes, push_u64_le};

verus! {

/// An element of the hash chain. `id` is a function of the other three
/// fields; a well-linked chain has each entry's `prev_id` equal to its
/// predecessor's `id`.
#[derive(Clone, Debug, PartialEq, Eq)]
pub struct Entry {
    pub id: HashValue,
    pub prev_id: HashValue,
    pub counter: u64,
    pub events: Vec<Event>,
}

/// The mathematical image of an entry.
#[verifier::ext_equal]
pub struct EntryView {
    pub id: Seq<u8>,
    pub prev_id: Seq<u8>,
    pub counter: u64,
    pub events: Seq<EventView>,
}

impl View for Entry {
    type V = EntryView;

    open spec fn view(&self) -> EntryView {
        EntryView {
            id: self.id@,
            prev_id: self.prev_id@,
            counter: self.counter,
            events: events_view(self.events@),
        }
    }
}

/// The images of a sequence of entries.
pub open spec fn entries_view(s: Seq<Entry>) -> Seq<EntryView> {
    s.map_values(|e: Entry| e@)
}

/// The bytes an entry's identifier digests: predecessor id, counter, event
/// count and the events themselves, in order.
pub open spec fn entry_bytes(prev_id: Seq<u8>, counter: u64, events: Seq<EventView>) -> Seq<u8>
    recommends
        events.len() <= u64::MAX,
{
    prev_id + vstd::bytes::spec_u64_to_le_bytes(counter) + vstd::bytes::spec_u64_to_le_bytes(
        events.len() as u64,
    ) + events_bytes(events)
}

/// The identifier of an entry with the given contents. An entry that holds
/// no count and no events keeps its predecessor's id, so a content-free root
/// entry anchors the chain without altering it; any other entry's id is the
/// digest of its contents.
pub open spec fn entry_id_spec(prev_id: Seq<u8>, counter: u64, events: Seq<EventView>) -> Seq<u8>
    recommends
        events.len() <= u64::MAX,
{
    if counter == 0 && events.len() == 0 {
        prev_id
    } else {
        sha256_of(entry_bytes(prev_id, counter, events))
    }
}

/// The one entry the given contents determine.
pub open spec fn entry_spec(prev_id: Seq<u8>, counter: u64, events: Seq<EventView>) -> EntryView
    recommends
        events.len() <= u64::MAX,
{
    EntryView {
        id: entry_id_spec(prev_id, counter, events),
        prev_id: prev_id,
        counter: counter,
        events: events,
    }
}

/// Computes the identifier an entry with these contents must carry.
pub fn compute_entry_id(prev_id: &HashValue, counter: u64, events: &Vec<Event>) -> (id: HashValue)
    ensures
        id@ == entry_id_spec(prev_id@, counter, events_view(events@)),
{
    if counter == 0 && events.len() == 0 {
        proof {
            assert(events_view(events@).len() == 0);
        }
        *prev_id
    } else {
        let mut buf: Vec<u8> = Vec::new();
        push_bytes(&mut buf, prev_id.bytes.as_slice());
        push_u64_le(&mut buf, counter);
        push_u64_le(&mut buf, events.len() as u64);
        push_events_bytes(&mut buf, events);
        proof {
            assert(buf@ == entry_bytes(prev_id@, counter, events_view(events@)));
        }
        sha256(&buf)
    }
}

/// Builds the entry with the given predecessor id, counter and events; its
/// id is derived from those contents.
pub fn create_entry(prev_id: &HashValue, counter: u64, events: Vec<Event>) -> (e: Entry)
    ensures
        e@ == entry_spec(prev_id@, counter, events_view(events@)),
{
    let id = compute_entry_id(prev_id, counter, &events);
    Entry { id, prev_id: *prev_id, counter, events }
}

} // verus!
