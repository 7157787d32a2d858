//! The GDAX feed: its kinds of message, and what each does to the book.
//!
//! The feed sends the whole book in one `snapshot` message and every later
//! change in `l2update` messages. The messages come here decoded, prices and
//! sides still as the text of the feed.

use vstd::prelude::*;
use crate::book_processor::{BookModel, BookProcessor, Summary, UpdateEvent};
use crate::feed::{
    checked, events_of, failure, first_fault, lemma_apply_joined, lemma_events_are_taken,
    lemma_fault_stays, lemma_joined, lemma_one_more, spec_decoded, take_all, taken, Decoded,
    TypeField,
};
use crate::price::Price;
use crate::side::Side;
use crate::size::Size;
use crate::text::same_text;
use crate::time::Time;

verus! {

/// The kinds of message of the feed.
#[derive(Clone, Copy, Debug, PartialEq, Eq, Structural)]
pub enum MessageType {
    Error,
    L2update,
    Snapshot,
    Subscriptions,
    Heartbeat,
}

/// One entry of an `l2update` message.
#[derive(Debug, PartialEq, Eq)]
pub struct Change {
    /// `"buy"` or `"sell"`.
    pub side: String,
    /// The price as a decimal string.
    pub price: String,
    /// The size as read from its text, or why it could not be read.
    pub size: Result<Size, String>,
}

/// One entry of a `snapshot` message.
#[derive(Debug, PartialEq, Eq)]
pub struct Level {
    /// The price as a decimal string.
    pub price: String,
    /// The size as read from its text, or why it could not be read.
    pub size: Result<Size, String>,
}

/// A decoded message.
#[derive(Debug, PartialEq, Eq)]
pub enum Message {
    /// The exchange reports an error.
    Error { message: String },
    /// Changes of levels, in the order of the message.
    L2update { changes: Vec<Change> },
    /// The whole book.
    Snapshot { bids: Vec<Level>, asks: Vec<Level> },
    /// The exchange confirms the subscription.
    Subscriptions,
    /// The exchange is alive.
    Heartbeat,
}

/// The kind of message that a `type` names.
pub open spec fn spec_message_type(name: Seq<char>) -> Option<MessageType> {
    if name == "heartbeat"@ {
        Some(MessageType::Heartbeat)
    } else if name == "error"@ {
        Some(MessageType::Error)
    } else if name == "l2update"@ {
        Some(MessageType::L2update)
    } else if name == "snapshot"@ {
        Some(MessageType::Snapshot)
    } else if name == "subscriptions"@ {
        Some(MessageType::Subscriptions)
    } else {
        None
    }
}

/// The update that a change asks for. Price, size and side are looked at in
/// this order, and the first that cannot be read gives the failure.
pub open spec fn decoded_change(time: Time, change: Change) -> Decoded {
    match Price::spec_parse_str(change.price@) {
        Err(text) => Err(text),
        Ok(price) => match change.size {
            Err(text) => Err(text@),
            Ok(size) => match Side::spec_of_str(change.side@) {
                None => Err("unknown side "@ + change.side@),
                Some(side) => Ok(UpdateEvent { time, side, price, size, initial_snapshot: false }),
            },
        },
    }
}

/// The update that a level of a snapshot asks for on its side.
pub open spec fn decoded_level(time: Time, side: Side, level: Level) -> Decoded {
    match Price::spec_parse_str(level.price@) {
        Err(text) => Err(text),
        Ok(price) => match level.size {
            Err(text) => Err(text@),
            Ok(size) => Ok(UpdateEvent { time, side, price, size, initial_snapshot: true }),
        },
    }
}

/// The updates of the changes of a message, in its order.
pub open spec fn decoded_changes(time: Time, changes: Seq<Change>) -> Seq<Decoded> {
    Seq::new(changes.len(), |i: int| decoded_change(time, changes[i]))
}

/// The updates of the levels of one side of a snapshot, in its order.
pub open spec fn decoded_levels(time: Time, side: Side, levels: Seq<Level>) -> Seq<Decoded> {
    Seq::new(levels.len(), |i: int| decoded_level(time, side, levels[i]))
}

/// The updates of a snapshot: those of its bids, then those of its asks.
pub open spec fn decoded_snapshot(time: Time, bids: Seq<Level>, asks: Seq<Level>) -> Seq<Decoded> {
    decoded_levels(time, Side::Buy, bids) + decoded_levels(time, Side::Sell, asks)
}

/// The book after a message, and the failure that dropped the message, if one did.
///
/// An `l2update` brings its changes to the book as it is. A `snapshot` brings
/// the bids, then the asks, to an empty book. Either is dropped for a fault in
/// any of its entries, and the book then stays as it was. The other messages
/// leave the book alone.
pub open spec fn after_message(book: BookModel, time: Time, message: Message) -> (
    BookModel,
    Option<Seq<char>>,
) {
    match message {
        Message::L2update { changes } => taken(book, decoded_changes(time, changes@)),
        Message::Snapshot { bids, asks } => match first_fault(
            decoded_snapshot(time, bids@, asks@),
        ) {
            Some(text) => (book, Some(text)),
            None => taken(BookModel::initial(), decoded_snapshot(time, bids@, asks@)),
        },
        _ => (book, None),
    }
}

fn decode_change(time: &Time, change: &Change) -> (res: Result<UpdateEvent, String>)
    ensures
        spec_decoded(res) == decoded_change(*time, *change),
{
    let price = match Price::parse_str(change.price.as_str()) {
        Ok(price) => price,
        Err(text) => {
            return Err(text);
        },
    };
    let size = match &change.size {
        Ok(size) => *size,
        Err(text) => {
            return Err(text.clone());
        },
    };
    let side = match Side::of_str(change.side.as_str()) {
        Ok(side) => side,
        Err(text) => {
            return Err(text);
        },
    };
    Ok(UpdateEvent { time: *time, side, price, size, initial_snapshot: false })
}

fn decode_level(time: &Time, side: Side, level: &Level) -> (res: Result<UpdateEvent, String>)
    ensures
        spec_decoded(res) == decoded_level(*time, side, *level),
{
    let price = match Price::parse_str(level.price.as_str()) {
        Ok(price) => price,
        Err(text) => {
            return Err(text);
        },
    };
    let size = match &level.size {
        Ok(size) => *size,
        Err(text) => {
            return Err(text.clone());
        },
    };
    Ok(UpdateEvent { time: *time, side, price, size, initial_snapshot: true })
}

/// The book of the one product that is followed, fed by the messages of the feed.
pub struct JsonProcessor {
    // Assumes a single product for now.
    book_processor: BookProcessor,
}

impl View for JsonProcessor {
    type V = BookModel;

    closed spec fn view(&self) -> BookModel {
        self.book_processor@
    }
}

impl JsonProcessor {
    /// A processor with a book before any update.
    pub fn new() -> (processor: JsonProcessor)
        ensures
            processor@ == BookModel::initial(),
    {
        JsonProcessor { book_processor: BookProcessor::new() }
    }

    /// The book as it stands.
    pub fn book(&self) -> (book: &BookProcessor)
        ensures
            book@ == self@,
    {
        &self.book_processor
    }

    /// The kind of a message, from what it shows of its type.
    ///
    /// Fails for a value that states no type, with the text of `TypeField::get_type`,
    /// and for a type that is none of the five, with a text that ends with the type.
    pub fn message_type(&self, json: &TypeField) -> (res: Result<MessageType, String>)
        ensures
            match json.spec_get_type() {
                Err(text) => failure(res) == Some(text),
                Ok(name) => match spec_message_type(name) {
                    Some(kind) => res == Ok::<MessageType, String>(kind),
                    None => failure(res) == Some("unexpected type "@ + name),
                },
            },
    {
        let message_type = match json.get_type() {
            Ok(name) => name,
            Err(text) => {
                return Err(text);
            },
        };
        if same_text(message_type, "heartbeat") {
            Ok(MessageType::Heartbeat)
        } else if same_text(message_type, "error") {
            Ok(MessageType::Error)
        } else if same_text(message_type, "l2update") {
            Ok(MessageType::L2update)
        } else if same_text(message_type, "snapshot") {
            Ok(MessageType::Snapshot)
        } else if same_text(message_type, "subscriptions") {
            Ok(MessageType::Subscriptions)
        } else {
            Err(String::from_str("unexpected type ").concat(message_type))
        }
    }

    /// The message that asks the exchange for the level-2 feed of the product.
    pub fn subscribe_message(&self) -> (message: Option<String>)
        ensures
            message matches Some(text) && text@
                == "{\"type\": \"subscribe\", \"product_ids\": [\"BTC-USD\"], \"channels\": [\"level2\", \"heartbeat\"]}"@,
    {
        Some(
            String::from_str(
                "{\"type\": \"subscribe\", \"product_ids\": [\"BTC-USD\"], \"channels\": [\"level2\", \"heartbeat\"]}",
            ),
        )
    }

    /// The address of the feed.
    pub fn server_name(&self) -> (name: String)
        ensures
            name@ == "wss://ws-feed.gdax.com"@,
    {
        String::from_str("wss://ws-feed.gdax.com")
    }

    /// Takes one decoded message that arrived at `time`.
    ///
    /// The entries of an `l2update` and of a `snapshot` are all read and checked
    /// first. If one cannot be read, or holds a size that the book refuses, the
    /// message is dropped: the first such entry gives the error and the book
    /// stays as it was. Otherwise the entries are brought to the book in order,
    /// those of a snapshot after a reset. A heartbeat hands back the summary of
    /// the book.
    pub fn on_message(&mut self, time: &Time, message: &Message) -> (res: Result<
        Option<Summary>,
        String,
    >)
        ensures
            after_message(old(self)@, *time, *message) == (final(self)@, failure(res)),
            match res {
                Ok(Some(summary)) => {
                    &&& *message is Heartbeat
                    &&& summary.bid_levels == final(self)@.bids.len()
                    &&& summary.ask_levels == final(self)@.asks.len()
                    &&& final(self)@.is_best_level(Side::Buy, summary.best_bid)
                    &&& final(self)@.is_best_level(Side::Sell, summary.best_ask)
                },
                Ok(None) => !(*message is Heartbeat),
                Err(_) => true,
            },
    {
        match message {
            Message::Error { message } => Ok(None),
            Message::L2update { changes } => {
                let events = match read_changes(time, changes) {
                    Ok(events) => events,
                    Err(text) => {
                        return Err(text);
                    },
                };
                proof {
                    lemma_events_are_taken(decoded_changes(*time, changes@));
                }
                take_all(&mut self.book_processor, &events);
                Ok(None)
            },
            Message::Snapshot { bids, asks } => {
                let ghost bid_updates = decoded_levels(*time, Side::Buy, bids@);
                let ghost ask_updates = decoded_levels(*time, Side::Sell, asks@);
                proof {
                    lemma_joined(bid_updates, ask_updates);
                }
                let bid_events = match read_levels(time, Side::Buy, bids) {
                    Ok(events) => events,
                    Err(text) => {
                        return Err(text);
                    },
                };
                let ask_events = match read_levels(time, Side::Sell, asks) {
                    Ok(events) => events,
                    Err(text) => {
                        return Err(text);
                    },
                };
                proof {
                    lemma_events_are_taken(bid_updates);
                    lemma_events_are_taken(ask_updates);
                    lemma_apply_joined(BookModel::initial(), bid_events@, ask_events@);
                }
                self.book_processor.clear_on_snapshot();
                take_all(&mut self.book_processor, &bid_events);
                take_all(&mut self.book_processor, &ask_events);
                Ok(None)
            },
            Message::Subscriptions => Ok(None),
            Message::Heartbeat => Ok(Some(self.book_processor.log_summary())),
        }
    }
}

/// Reads and checks the changes of a message: the events in order, or the first fault.
fn read_changes(time: &Time, changes: &Vec<Change>) -> (res: Result<Vec<UpdateEvent>, String>)
    ensures
        first_fault(decoded_changes(*time, changes@)) == failure(res),
        res matches Ok(events) ==> events@ == events_of(decoded_changes(*time, changes@)),
{
    let ghost updates = decoded_changes(*time, changes@);
    let mut events: Vec<UpdateEvent> = Vec::new();
    let mut i: usize = 0;
    while i < changes.len()
        invariant
            i <= changes.len(),
            updates == decoded_changes(*time, changes@),
            first_fault(updates.take(i as int)) is None,
            events@ == events_of(updates.take(i as int)),
        decreases changes.len() - i,
    {
        let update = decode_change(time, &changes[i]);
        proof {
            assert(updates.take(i + 1) =~= updates.take(i as int).push(updates[i as int]));
            lemma_one_more(updates.take(i as int), updates[i as int]);
        }
        match checked(update) {
            Ok(event) => {
                events.push(event);
            },
            Err(text) => {
                proof {
                    lemma_fault_stays(updates.take(i + 1), updates.skip(i + 1));
                    assert(updates.take(i + 1) + updates.skip(i + 1) =~= updates);
                }
                return Err(text);
            },
        }
        i = i + 1;
    }
    proof {
        assert(updates.take(i as int) =~= updates);
    }
    Ok(events)
}

/// Reads and checks the levels of one side of a snapshot: the events in order,
/// or the first fault.
fn read_levels(time: &Time, side: Side, levels: &Vec<Level>) -> (res: Result<
    Vec<UpdateEvent>,
    String,
>)
    ensures
        first_fault(decoded_levels(*time, side, levels@)) == failure(res),
        res matches Ok(events) ==> events@ == events_of(decoded_levels(*time, side, levels@)),
{
    let ghost updates = decoded_levels(*time, side, levels@);
    let mut events: Vec<UpdateEvent> = Vec::new();
    let mut i: usize = 0;
    while i < levels.len()
        invariant
            i <= levels.len(),
            updates == decoded_levels(*time, side, levels@),
            first_fault(updates.take(i as int)) is None,
            events@ == events_of(updates.take(i as int)),
        decreases levels.len() - i,
    {
        let update = decode_level(time, side, &levels[i]);
        proof {
            assert(updates.take(i + 1) =~= updates.take(i as int).push(updates[i as int]));
            lemma_one_more(updates.take(i as int), updates[i as int]);
        }
        match checked(update) {
            Ok(event) => {
                events.push(event);
            },
            Err(text) => {
                proof {
                    lemma_fault_stays(updates.take(i + 1), updates.skip(i + 1));
                    assert(updates.take(i + 1) + updates.skip(i + 1) =~= updates);
                }
                return Err(text);
            },
        }
        i = i + 1;
    }
    proof {
        assert(updates.take(i as int) =~= updates);
    }
    Ok(events)
}

} // verus!
