//! Ledger-visible actions carried by chain entries. The one kind produced at
//! genesis is a transaction.

use vstd::prelude::*;

use crate::transaction::{Transaction, TransactionView};
use crate::wire::{push_bytes, push_u64_le, tokens_to_u64};

verus! {

/// A tagged, ledger-visible action.
#[derive(Clone, Copy, Debug, PartialEq, Eq)]
pub enum Event {
    Transaction(Transaction),
}

/// The mathematical image of an event.
#[verifier::ext_equal]
pub enum EventView {
    Transaction(TransactionView),
}

impl View for Event {
    type V = EventView;

    open spec fn view(&self) -> EventView {
        match self {
            Event::Transaction(t) => EventView::Transaction(t@),
        }
    }
}

/// The images of a sequence of events.
pub open spec fn events_view(s: Seq<Event>) -> Seq<EventView> {
    s.map_values(|e: Event| e@)
}

/// The bytes of one event, as they enter an entry's identifier: every field
/// of the transaction, the signature included.
pub open spec fn event_bytes(e: EventView) -> Seq<u8> {
    match e {
        EventView::Transaction(t) => t.from + t.to + vstd::bytes::spec_u64_to_le_bytes(
            tokens_to_u64(t.tokens),
        ) + t.last_id + t.sig,
    }
}

/// The bytes of a sequence of events, in order.
pub open spec fn events_bytes(s: Seq<EventView>) -> Seq<u8>
    decreases s.len(),
{
    if s.len() == 0 {
        Seq::empty()
    } else {
        event_bytes(s[0]) + events_bytes(s.drop_first())
    }
}

/// Appending an event appends its bytes.
pub proof fn lemma_events_bytes_push(s: Seq<EventView>, e: EventView)
    ensures
        events_bytes(s.push(e)) == events_bytes(s) + event_bytes(e),
    decreases s.len(),
{
    if s.len() == 0 {
        assert(s.push(e)[0] == e);
        assert(s.push(e).drop_first() =~= Seq::<EventView>::empty());
        assert(events_bytes(Seq::<EventView>::empty()) == Seq::<u8>::empty());
        assert(events_bytes(s.push(e)) == event_bytes(e) + Seq::<u8>::empty());
        assert(events_bytes(s.push(e)) =~= events_bytes(s) + event_bytes(e));
    } else {
        assert(s.push(e)[0] == s[0]);
        assert(s.push(e).drop_first() =~= s.drop_first().push(e));
        lemma_events_bytes_push(s.drop_first(), e);
        assert(events_bytes(s.push(e)) == event_bytes(s[0]) + (events_bytes(s.drop_first())
            + event_bytes(e)));
        assert(events_bytes(s.push(e)) =~= events_bytes(s) + event_bytes(e));
    }
}

/// Appends the bytes of one event to `out`.
pub(crate) fn push_event_bytes(out: &mut Vec<u8>, e: &Event)
    ensures
        final(out)@ == old(out)@ + event_bytes(e@),
{
    match e {
        Event::Transaction(t) => {
            push_bytes(out, t.from.bytes.as_slice());
            push_bytes(out, t.to.bytes.as_slice());
            push_u64_le(out, 0u64.wrapping_add_signed(t.tokens));
            push_bytes(out, t.last_id.bytes.as_slice());
            push_bytes(out, t.sig.bytes.as_slice());
        },
    }
}

/// Appends the bytes of every event to `out`, in order.
pub(crate) fn push_events_bytes(out: &mut Vec<u8>, events: &Vec<Event>)
    ensures
        final(out)@ == old(out)@ + events_bytes(events_view(events@)),
{
    let mut i: usize = 0;
    while i < events.len()
        invariant
            i <= events@.len(),
            out@ == old(out)@ + events_bytes(events_view(events@.subrange(0, i as int))),
        decreases events@.len() - i,
    {
        push_event_bytes(out, &events[i]);
        proof {
            let prefix = events@.subrange(0, i as int);
            let next = events@.subrange(0, i + 1);
            assert(events_view(next) =~= events_view(prefix).push(events@[i as int]@));
            lemma_events_bytes_push(events_view(prefix), events@[i as int]@);
        }
        i = i + 1;
    }
    proof {
        assert(events@.subrange(0, events@.len() as int) =~= events@);
    }
}

} // verus!
