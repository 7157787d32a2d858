//! The Gemini feed: one kind of message, `update`, that carries a list of events.
//!
//! Of the events only those of type `change` concern the book. Each gives the
//! size that remains at a price on one side; those of the first message of a
//! connection have the reason `initial` and are the snapshot.

use vstd::prelude::*;
use crate::book_processor::{BookModel, BookProcessor, Summary, UpdateEvent};
use crate::feed::{
    checked, events_of, failure, first_fault, lemma_events_are_taken, lemma_fault_stays,
    lemma_one_more, spec_decoded, take_all, taken, Decoded, TypeField,
};
use crate::price::Price;
use crate::side::Side;
use crate::size::Size;
use crate::text::same_text;
use crate::time::Time;

verus! {

/// An event of type `change`.
#[derive(Debug, PartialEq, Eq)]
pub struct Change {
    /// Why the level changed; `"initial"` for an entry of the snapshot.
    pub reason: String,
    /// The price as a decimal string.
    pub price: String,
    /// By how much the size changed, as the feed wrote it.
    pub delta: String,
    /// The size that remains, as read from its text, or why it could not be read.
    pub remaining: Result<Size, String>,
    /// `"bid"` or `"ask"`.
    pub side: String,
}

/// One entry of the list of events.
#[derive(Debug, PartialEq, Eq)]
pub struct Event {
    /// What the entry shows of its type.
    pub type_field: TypeField,
    /// The entry decoded as a change, or why it could not be decoded as one.
    pub change: Result<Change, String>,
}

/// What a message shows of its `events` field.
#[derive(Debug, PartialEq, Eq)]
pub enum EventsField {
    /// There is no such field.
    Missing,
    /// The field holds something other than a list.
    NotArray,
    /// The entries of the list.
    Array(Vec<Event>),
}

/// A message of the feed, as far as it is looked at.
#[derive(Debug, PartialEq, Eq)]
pub struct Update {
    /// What the message shows of its type.
    pub type_field: TypeField,
    /// What the message shows of its events.
    pub events: EventsField,
}

/// The changes among the events, in their order, or the first failure.
///
/// Every event must state a type. Those of type `change` must be decoded;
/// those of any other type are passed over.
pub open spec fn changes_of(events: Seq<Event>) -> Result<Seq<Change>, Seq<char>>
    decreases events.len(),
{
    if events.len() == 0 {
        Ok(Seq::<Change>::empty())
    } else {
        match changes_of(events.drop_last()) {
            Err(text) => Err(text),
            Ok(changes) => match events.last().type_field.spec_get_type() {
                Err(text) => Err(text),
                Ok(name) => if name == "change"@ {
                    match events.last().change {
                        Err(text) => Err(text@),
                        Ok(change) => Ok(changes.push(change)),
                    }
                } else {
                    Ok(changes)
                },
            },
        }
    }
}

/// The changes of a message, or why it has none to give: the message must be
/// of type `update` and hold a list of events.
pub open spec fn spec_get_events(json: Update) -> Result<Seq<Change>, Seq<char>> {
    match json.type_field.spec_get_type() {
        Err(text) => Err(text),
        Ok(name) => if name != "update"@ {
            Err("unexpected type "@ + name)
        } else {
            match json.events {
                EventsField::Missing => Err("no events"@),
                EventsField::NotArray => Err("unexpected event type"@),
                EventsField::Array(events) => changes_of(events@),
            }
        },
    }
}

/// The side that the feed's word denotes.
pub open spec fn spec_side(word: Seq<char>) -> Option<Side> {
    if word == "bid"@ {
        Some(Side::Buy)
    } else if word == "ask"@ {
        Some(Side::Sell)
    } else {
        None
    }
}

/// The update that a change asks for. Side, price and size are looked at in
/// this order, and the first that cannot be read gives the failure. A change
/// with the reason `initial` is an entry of the snapshot.
pub open spec fn decoded_change(time: Time, change: Change) -> Decoded {
    match spec_side(change.side@) {
        None => Err("unexpected side "@ + change.side@),
        Some(side) => match Price::spec_parse_str(change.price@) {
            Err(text) => Err(text),
            Ok(price) => match change.remaining {
                Err(text) => Err(text@),
                Ok(size) => Ok(
                    UpdateEvent {
                        time,
                        side,
                        price,
                        size,
                        initial_snapshot: change.reason@ == "initial"@,
                    },
                ),
            },
        },
    }
}

/// The updates of the changes of a message, in its order.
pub open spec fn decoded_changes(time: Time, changes: Seq<Change>) -> Seq<Decoded> {
    Seq::new(changes.len(), |i: int| decoded_change(time, changes[i]))
}

/// The changes that a list of borrowed changes points to.
pub open spec fn borrowed(changes: Seq<&Change>) -> Seq<Change> {
    Seq::new(changes.len(), |i: int| *changes[i])
}

/// The book after a message, and the failure that dropped the message, if one did.
///
/// A message that gives no changes, or that has a fault in one of them, is
/// dropped, and the book stays as it was. Otherwise the changes are brought to
/// the book in order.
pub open spec fn after_message(book: BookModel, time: Time, json: Update) -> (
    BookModel,
    Option<Seq<char>>,
) {
    match spec_get_events(json) {
        Err(text) => (book, Some(text)),
        Ok(changes) => taken(book, decoded_changes(time, changes)),
    }
}

fn decode_change(time: &Time, change: &Change) -> (res: Result<UpdateEvent, String>)
    ensures
        spec_decoded(res) == decoded_change(*time, *change),
{
    let initial = same_text(change.reason.as_str(), "initial");
    let side = if same_text(change.side.as_str(), "bid") {
        Side::Buy
    } else if same_text(change.side.as_str(), "ask") {
        Side::Sell
    } else {
        return Err(String::from_str("unexpected side ").concat(change.side.as_str()));
    };
    let price = match Price::parse_str(change.price.as_str()) {
        Ok(price) => price,
        Err(text) => {
            return Err(text);
        },
    };
    let size = match &change.remaining {
        Ok(size) => *size,
        Err(text) => {
            return Err(text.clone());
        },
    };
    Ok(UpdateEvent { time: *time, side, price, size, initial_snapshot: initial })
}

/// The book of the one product that is followed, fed by the messages of the feed.
pub struct JsonProcessor {
    // Assumes a single product for now.
    book_processor: BookProcessor,
}

impl View for JsonProcessor {
    type V = BookModel;

    closed spec fn view(&self) -> BookModel {
        self.book_processor@
    }
}

impl JsonProcessor {
    /// A processor with a book before any update.
    pub fn new() -> (processor: JsonProcessor)
        ensures
            processor@ == BookModel::initial(),
    {
        JsonProcessor { book_processor: BookProcessor::new() }
    }

    /// The book as it stands.
    pub fn book(&self) -> (book: &BookProcessor)
        ensures
            book@ == self@,
    {
        &self.book_processor
    }

    /// The type that a message or an event states.
    pub fn get_type(json: &TypeField) -> (res: Result<&str, String>)
        ensures
            match res {
                Ok(name) => json.spec_get_type() == Ok::<Seq<char>, Seq<char>>(name@),
                Err(text) => json.spec_get_type() == Err::<Seq<char>, Seq<char>>(text@),
            },
    {
        json.get_type()
    }

    /// The changes among the events of a message, in their order.
    ///
    /// Fails for a message that is no `update`, that has no list of events, or
    /// that holds an event without a type or a change that could not be decoded.
    pub fn get_events<'a>(&self, json: &'a Update) -> (res: Result<Vec<&'a Change>, String>)
        ensures
            match res {
                Ok(changes) => spec_get_events(*json) == Ok::<Seq<Change>, Seq<char>>(
                    borrowed(changes@),
                ),
                Err(text) => spec_get_events(*json) == Err::<Seq<Change>, Seq<char>>(text@),
            },
    {
        let message_type = match JsonProcessor::get_type(&json.type_field) {
            Ok(name) => name,
            Err(text) => {
                return Err(text);
            },
        };
        if !same_text(message_type, "update") {
            return Err(String::from_str("unexpected type ").concat(message_type));
        }
        let events = match &json.events {
            EventsField::Missing => {
                return Err(String::from_str("no events"));
            },
            EventsField::Array(events) => events,
            EventsField::NotArray => {
                return Err(String::from_str("unexpected event type"));
            },
        };
        let mut results: Vec<&'a Change> = Vec::new();
        let mut i: usize = 0;
        proof {
            assert(events@.take(0) =~= Seq::<Event>::empty());
            assert(borrowed(results@) =~= Seq::<Change>::empty());
        }
        while i < events.len()
            invariant
                i <= events.len(),
                spec_get_events(*json) == changes_of(events@),
                changes_of(events@.take(i as int)) == Ok::<Seq<Change>, Seq<char>>(
                    borrowed(results@),
                ),
            decreases events.len() - i,
        {
            let event = &events[i];
            proof {
                assert(events@.take(i + 1).drop_last() =~= events@.take(i as int));
                assert(events@.take(i + 1).last() == events@[i as int]);
            }
            let event_type = match JsonProcessor::get_type(&event.type_field) {
                Ok(name) => name,
                Err(text) => {
                    proof {
                        lemma_changes_failed(events@.take(i + 1), events@.skip(i + 1));
                        assert(events@.take(i + 1) + events@.skip(i + 1) =~= events@);
                    }
                    return Err(text);
                },
            };
            let event_type_is_change = same_text(event_type, "change");
            if event_type_is_change {
                match &event.change {
                    Ok(change) => {
                        proof {
                            assert(borrowed(results@.push(change)) =~= borrowed(results@).push(
                                *change,
                            ));
                        }
                        results.push(change);
                    },
                    Err(text) => {
                        proof {
                            lemma_changes_failed(events@.take(i + 1), events@.skip(i + 1));
                            assert(events@.take(i + 1) + events@.skip(i + 1) =~= events@);
                        }
                        return Err(text.clone());
                    },
                }
            }
            i = i + 1;
        }
        proof {
            assert(events@.take(i as int) =~= events@);
        }
        Ok(results)
    }

    /// No message has to be sent to subscribe: the feed starts by itself.
    pub fn subscribe_message() -> (message: Option<String>)
        ensures
            message is None,
    {
        None
    }

    /// Takes one decoded message that arrived at `time`.
    ///
    /// The changes are all read and checked first. A message that gives no
    /// changes, and one with a change that cannot be read or that holds a size
    /// the book refuses, is dropped: the first such fault is the error and the
    /// book stays as it was. Otherwise the changes are brought to the book in
    /// order, and the summary of the book is handed back.
    pub fn on_message(&mut self, time: &Time, json: &Update) -> (res: Result<Summary, String>)
        ensures
            after_message(old(self)@, *time, *json) == (final(self)@, failure(res)),
            res matches Ok(summary) ==> {
                &&& summary.bid_levels == final(self)@.bids.len()
                &&& summary.ask_levels == final(self)@.asks.len()
                &&& final(self)@.is_best_level(Side::Buy, summary.best_bid)
                &&& final(self)@.is_best_level(Side::Sell, summary.best_ask)
            },
    {
        let changes = match self.get_events(json) {
            Ok(changes) => changes,
            Err(text) => {
                return Err(text);
            },
        };
        let ghost updates = decoded_changes(*time, borrowed(changes@));
        let mut events: Vec<UpdateEvent> = Vec::new();
        let mut i: usize = 0;
        while i < changes.len()
            invariant
                i <= changes.len(),
                updates == decoded_changes(*time, borrowed(changes@)),
                spec_get_events(*json) == Ok::<Seq<Change>, Seq<char>>(borrowed(changes@)),
                self@ == old(self)@,
                first_fault(updates.take(i as int)) is None,
                events@ == events_of(updates.take(i as int)),
            decreases changes.len() - i,
        {
            let update = decode_change(time, changes[i]);
            proof {
                assert(updates.take(i + 1) =~= updates.take(i as int).push(updates[i as int]));
                lemma_one_more(updates.take(i as int), updates[i as int]);
            }
            match checked(update) {
                Ok(event) => {
                    events.push(event);
                },
                Err(text) => {
                    proof {
                        lemma_fault_stays(updates.take(i + 1), updates.skip(i + 1));
                        assert(updates.take(i + 1) + updates.skip(i + 1) =~= updates);
                    }
                    return Err(text);
                },
            }
            i = i + 1;
        }
        proof {
            assert(updates.take(i as int) =~= updates);
            lemma_events_are_taken(updates);
        }
        take_all(&mut self.book_processor, &events);
        Ok(self.book_processor.log_summary())
    }
}

/// A list of events that failed stays failed, with the same text, whatever follows.
pub proof fn lemma_changes_failed(events: Seq<Event>, more: Seq<Event>)
    requires
        changes_of(events) is Err,
    ensures
        changes_of(events + more) == changes_of(events),
    decreases more.len(),
{
    if more.len() == 0 {
        assert(events + more =~= events);
    } else {
        lemma_changes_failed(events, more.drop_last());
        assert((events + more).drop_last() =~= events + more.drop_last());
    }
}

} // verus!
