//! What every exchange's messages have in common once they are decoded.
//!
//! A message arrives as JSON text. Turning the text into values is not done
//! here: this module and the two exchanges' modules start from what was
//! decoded and decide what it means. A message is taken whole or not at all:
//! every update of it is read and checked before the first is brought to the
//! book, and one that cannot be read drops the message.

use vstd::prelude::*;
use crate::book_processor::{BookModel, BookProcessor, UpdateEvent};
use crate::level_store::ApplyError;
use crate::size::SizeKind;

verus! {

/// What a JSON value shows of its `type` field.
#[derive(Debug, PartialEq, Eq)]
pub enum TypeField {
    /// The value is no object.
    NotObject,
    /// The object has no `type` field.
    Missing,
    /// The `type` field holds something other than a string.
    NotText,
    /// The string of the `type` field.
    Text(String),
}

/// An update as decoded from a message, or the text of why it could not be decoded.
pub type Decoded = Result<UpdateEvent, Seq<char>>;

/// The text of the error for an update that the book refuses.
pub open spec fn refusal_text(error: ApplyError) -> Seq<char> {
    match error {
        ApplyError::MalformedUpdate => "malformed update"@,
    }
}

/// Why an update of a message cannot be taken: the text of why it could not be
/// decoded, or of the book's refusal of its size. `None` for an update that the
/// book will take.
pub open spec fn fault(update: Decoded) -> Option<Seq<char>> {
    match update {
        Err(text) => Some(text),
        Ok(event) => if event.size.malformed() {
            Some(refusal_text(ApplyError::MalformedUpdate))
        } else {
            None
        },
    }
}

/// The fault of the first update that has one, in the order of the message.
pub open spec fn first_fault(updates: Seq<Decoded>) -> Option<Seq<char>>
    decreases updates.len(),
{
    if updates.len() == 0 {
        None
    } else {
        match first_fault(updates.drop_last()) {
            Some(text) => Some(text),
            None => fault(updates.last()),
        }
    }
}

/// The events of the updates that were decoded, in their order.
pub open spec fn events_of(updates: Seq<Decoded>) -> Seq<UpdateEvent>
    decreases updates.len(),
{
    if updates.len() == 0 {
        Seq::<UpdateEvent>::empty()
    } else {
        match updates.last() {
            Ok(event) => events_of(updates.drop_last()).push(event),
            Err(_) => events_of(updates.drop_last()),
        }
    }
}

/// The book after the decoded updates of one message, and the failure that
/// dropped the message, if one did.
///
/// A message with a fault in any of its updates is dropped: the book stays as
/// it is, and the first fault is the failure. A message without fault is taken
/// whole, its updates in order.
pub open spec fn taken(book: BookModel, updates: Seq<Decoded>) -> (BookModel, Option<Seq<char>>) {
    match first_fault(updates) {
        Some(text) => (book, Some(text)),
        None => (book.apply_all(events_of(updates)), None),
    }
}

impl TypeField {
    /// The type that a message states, or the text of why it states none.
    pub open spec fn spec_get_type(self) -> Result<Seq<char>, Seq<char>> {
        match self {
            TypeField::Text(name) => Ok(name@),
            TypeField::NotText => Err("json message has unexpected type"@),
            TypeField::Missing => Err("json message has missing type"@),
            TypeField::NotObject => Err("json message is not an object"@),
        }
    }

    /// The type that a message states; an error for a value that is no object,
    /// has no `type`, or has one that is no string.
    pub fn get_type(&self) -> (res: Result<&str, String>)
        ensures
            match res {
                Ok(name) => self.spec_get_type() == Ok::<Seq<char>, Seq<char>>(name@),
                Err(text) => self.spec_get_type() == Err::<Seq<char>, Seq<char>>(text@),
            },
    {
        match self {
            TypeField::Text(name) => Ok(name.as_str()),
            TypeField::NotText => Err(String::from_str("json message has unexpected type")),
            TypeField::Missing => Err(String::from_str("json message has missing type")),
            TypeField::NotObject => Err(String::from_str("json message is not an object")),
        }
    }
}

impl ApplyError {
    /// The text of the error.
    pub fn message(&self) -> (text: String)
        ensures
            text@ == refusal_text(*self),
    {
        match self {
            ApplyError::MalformedUpdate => String::from_str("malformed update"),
        }
    }
}

/// A decoded update with the text of its failure as characters.
pub open spec fn spec_decoded(update: Result<UpdateEvent, String>) -> Decoded {
    match update {
        Ok(event) => Ok(event),
        Err(text) => Err(text@),
    }
}

/// The failure of a result, if it is one.
pub open spec fn failure<T>(res: Result<T, String>) -> Option<Seq<char>> {
    match res {
        Ok(_) => None,
        Err(text) => Some(text@),
    }
}

/// Checks one decoded update: hands back the event if the book will take it,
/// and else the text of its fault.
pub fn checked(update: Result<UpdateEvent, String>) -> (res: Result<UpdateEvent, String>)
    ensures
        fault(spec_decoded(update)) == failure(res),
        res matches Ok(event) ==> update == Ok::<UpdateEvent, String>(event),
{
    match update {
        Err(text) => Err(text),
        Ok(event) => match event.size.kind() {
            SizeKind::Negative | SizeKind::NotANumber => Err(ApplyError::MalformedUpdate.message()),
            _ => Ok(event),
        },
    }
}

/// Brings the events of a message to the book, in order. None of them is one
/// that the book refuses.
pub(crate) fn take_all(book: &mut BookProcessor, events: &Vec<UpdateEvent>)
    requires
        forall|i: int| 0 <= i < events.len() ==> !events[i].size.malformed(),
    ensures
        final(book)@ == old(book)@.apply_all(events@),
{
    let ghost start = book@;
    let mut i: usize = 0;
    while i < events.len()
        invariant
            i <= events.len(),
            forall|k: int| 0 <= k < events.len() ==> !events[k].size.malformed(),
            book@ == start.apply_all(events@.take(i as int)),
        decreases events.len() - i,
    {
        let event = &events[i];
        proof {
            assert(events@.take(i + 1).drop_last() =~= events@.take(i as int));
            assert(events@.take(i + 1).last() == events@[i as int]);
        }
        let taken = book.on_update(
            &event.time,
            event.side,
            event.price,
            event.size,
            event.initial_snapshot,
        );
        assert(taken is Ok);
        i = i + 1;
    }
    proof {
        assert(events@.take(i as int) =~= events@);
    }
}

/// One more update behind a run: its fault counts if none came before, and its
/// event follows the others.
pub proof fn lemma_one_more(updates: Seq<Decoded>, next: Decoded)
    ensures
        first_fault(updates.push(next)) == (if first_fault(updates) is Some {
            first_fault(updates)
        } else {
            fault(next)
        }),
        events_of(updates.push(next)) == (match next {
            Ok(event) => events_of(updates).push(event),
            Err(_) => events_of(updates),
        }),
{
    assert(updates.push(next).drop_last() =~= updates);
    assert(updates.push(next).last() == next);
}

/// A fault stays the first, whatever follows it.
pub proof fn lemma_fault_stays(updates: Seq<Decoded>, more: Seq<Decoded>)
    requires
        first_fault(updates) is Some,
    ensures
        first_fault(updates + more) == first_fault(updates),
    decreases more.len(),
{
    if more.len() == 0 {
        assert(updates + more =~= updates);
    } else {
        lemma_fault_stays(updates, more.drop_last());
        assert((updates + more).drop_last() =~= updates + more.drop_last());
    }
}

/// Two runs behind each other: the first fault of the first counts, else that
/// of the second, and the events follow each other.
pub proof fn lemma_joined(first: Seq<Decoded>, second: Seq<Decoded>)
    ensures
        first_fault(first + second) == (if first_fault(first) is Some {
            first_fault(first)
        } else {
            first_fault(second)
        }),
        events_of(first + second) == events_of(first) + events_of(second),
    decreases second.len(),
{
    if second.len() == 0 {
        assert(first + second =~= first);
        assert(events_of(first) + events_of(second) =~= events_of(first));
    } else {
        lemma_joined(first, second.drop_last());
        assert((first + second).drop_last() =~= first + second.drop_last());
        assert((first + second).last() == second.last());
        assert((events_of(first) + events_of(second.drop_last())).push(second.last()->Ok_0)
            =~= events_of(first) + events_of(second.drop_last()).push(second.last()->Ok_0));
    }
}

/// Taking two runs of events one after the other is taking them as one run.
pub proof fn lemma_apply_joined(book: BookModel, first: Seq<UpdateEvent>, second: Seq<UpdateEvent>)
    ensures
        book.apply_all(first + second) == book.apply_all(first).apply_all(second),
    decreases second.len(),
{
    if second.len() == 0 {
        assert(first + second =~= first);
    } else {
        lemma_apply_joined(book, first, second.drop_last());
        assert((first + second).drop_last() =~= first + second.drop_last());
        assert((first + second).last() == second.last());
    }
}

/// The events of updates without fault are none that the book refuses.
pub proof fn lemma_events_are_taken(updates: Seq<Decoded>)
    requires
        first_fault(updates) is None,
    ensures
        forall|i: int|
            0 <= i < events_of(updates).len() ==> !(#[trigger] events_of(updates)[i]).size.malformed(),
    decreases updates.len(),
{
    if updates.len() > 0 {
        lemma_events_are_taken(updates.drop_last());
    }
}

} // verus!
