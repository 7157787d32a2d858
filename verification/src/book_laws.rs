//! What holds of every book, whatever updates it has taken.

use vstd::prelude::*;
use crate::book_processor::{BookModel, NotLiveStatus, SnapshotStatus, UpdateEvent, STALE_AFTER_NANOS};
use crate::price::Price;
use crate::side::Side;
use crate::size::{Size, SizeKind};
use crate::time::Time;

verus! {

/// The table of the feed's status, entry by entry.
///
/// From each of the three statuses, a snapshot entry and a change each lead
/// where the table says. In particular a snapshot entry breaks a feed that is
/// past its snapshot, and a broken feed stays broken.
pub proof fn law_status_table()
    ensures
        SnapshotStatus::InitialSnapshot.spec_update(true) == SnapshotStatus::InitialSnapshot,
        SnapshotStatus::InitialSnapshot.spec_update(false) == SnapshotStatus::PostSnapshot,
        SnapshotStatus::PostSnapshot.spec_update(true) == SnapshotStatus::Error,
        SnapshotStatus::PostSnapshot.spec_update(false) == SnapshotStatus::PostSnapshot,
        SnapshotStatus::Error.spec_update(true) == SnapshotStatus::Error,
        SnapshotStatus::Error.spec_update(false) == SnapshotStatus::Error,
{
}

/// A broken feed stays broken, whatever updates follow.
pub proof fn law_error_absorbs(kinds: Seq<bool>)
    ensures
        SnapshotStatus::Error.after(kinds) == SnapshotStatus::Error,
    decreases kinds.len(),
{
    if kinds.len() > 0 {
        law_error_absorbs(kinds.drop_last());
    }
}

/// Snapshot entries alone never end the first snapshot.
pub proof fn law_snapshot_entries_keep_bootstrapping(kinds: Seq<bool>)
    requires
        forall|i: int| 0 <= i < kinds.len() ==> kinds[i],
    ensures
        SnapshotStatus::InitialSnapshot.after(kinds) == SnapshotStatus::InitialSnapshot,
    decreases kinds.len(),
{
    if kinds.len() > 0 {
        law_snapshot_entries_keep_bootstrapping(kinds.drop_last());
    }
}

/// Removing levels that are not there changes no level.
///
/// Let every update of a run have a size of zero and a price at which the book
/// holds no level on the update's side. Then both sides are after the run what
/// they were before it.
pub proof fn law_absent_removals_change_nothing(book: BookModel, events: Seq<UpdateEvent>)
    requires
        forall|i: int|
            0 <= i < events.len() ==> events[i].size.spec_kind() == SizeKind::Zero
                && !book.levels(events[i].side).contains_key(events[i].price.0),
    ensures
        book.apply_all(events).bids == book.bids,
        book.apply_all(events).asks == book.asks,
    decreases events.len(),
{
    if events.len() > 0 {
        let before = events.drop_last();
        let event = events.last();
        law_absent_removals_change_nothing(book, before);
        let earlier = book.apply_all(before);
        assert(!earlier.levels(event.side).contains_key(event.price.0));
        assert(earlier.bids.remove(event.price.0) =~= earlier.bids || event.side != Side::Buy);
        assert(earlier.asks.remove(event.price.0) =~= earlier.asks || event.side != Side::Sell);
    }
}

/// Setting a level that was not there and then removing it leaves the side as it was.
///
/// The first update gives `price` any size, the second a size of zero. If the
/// side held no level at `price` before, it holds the same levels afterwards,
/// and as many; the other side is untouched.
pub proof fn law_insert_then_remove(book: BookModel, insert: UpdateEvent, remove: UpdateEvent)
    requires
        insert.side == remove.side,
        insert.price == remove.price,
        remove.size.spec_kind() == SizeKind::Zero,
        !book.levels(insert.side).contains_key(insert.price.0),
    ensures
        book.apply(insert).apply(remove).bids == book.bids,
        book.apply(insert).apply(remove).asks == book.asks,
        book.apply(insert).apply(remove).levels(insert.side).len() == book.levels(
            insert.side,
        ).len(),
{
    let key = insert.price.0;
    let levels = book.levels(insert.side);
    assert(levels.remove(key) =~= levels);
    assert(levels.insert(key, insert.size).remove(key) =~= levels);
    assert(levels.remove(key).remove(key) =~= levels);
}

/// What a reader is told, by the status of the feed.
///
/// A broken feed is reported as such however fresh the last update is. A book
/// in its first snapshot is reported as such. A book past its snapshot is stale
/// exactly when more than half a second has gone by since the last update, be
/// it by a single nanosecond.
pub proof fn law_liveness(book: BookModel, now: Time)
    ensures
        book.snapshot_status == SnapshotStatus::Error ==> book.status(now) == Err::<
            (),
            NotLiveStatus,
        >(NotLiveStatus::SnapshotError),
        book.snapshot_status == SnapshotStatus::InitialSnapshot ==> book.status(now) == Err::<
            (),
            NotLiveStatus,
        >(NotLiveStatus::InitialSnapshot),
        book.snapshot_status == SnapshotStatus::PostSnapshot && now.spec_nanos_since(
            book.last_update,
        ) > STALE_AFTER_NANOS ==> book.status(now) == Err::<(), NotLiveStatus>(
            NotLiveStatus::Stale,
        ),
        book.snapshot_status == SnapshotStatus::PostSnapshot && now.spec_nanos_since(
            book.last_update,
        ) <= STALE_AFTER_NANOS ==> book.status(now) == Ok::<(), NotLiveStatus>(()),
{
}

/// The kinds of the updates of a run that a book takes: whether each is a
/// snapshot entry, the refused ones left out.
pub open spec fn taken_kinds(events: Seq<UpdateEvent>) -> Seq<bool>
    decreases events.len(),
{
    if events.len() == 0 {
        Seq::<bool>::empty()
    } else if events.last().size.malformed() {
        taken_kinds(events.drop_last())
    } else {
        taken_kinds(events.drop_last()).push(events.last().initial_snapshot)
    }
}

/// The status of a book after a run of updates is the status after the kinds of
/// the updates that it took.
pub proof fn lemma_status_after(book: BookModel, events: Seq<UpdateEvent>)
    ensures
        book.apply_all(events).snapshot_status == book.snapshot_status.after(taken_kinds(events)),
    decreases events.len(),
{
    if events.len() > 0 {
        lemma_status_after(book, events.drop_last());
        if !events.last().size.malformed() {
            let kinds = taken_kinds(events);
            assert(kinds.drop_last() =~= taken_kinds(events.drop_last()));
        }
    }
}

/// Until the first change is taken, a book is in its first snapshot.
///
/// Start from a new book and give it any run of updates of which each is a
/// snapshot entry or is refused. Whatever the time, the book is reported as
/// still in its first snapshot.
pub proof fn law_bootstrapping_before_first_change(events: Seq<UpdateEvent>, now: Time)
    requires
        forall|i: int|
            0 <= i < events.len() ==> events[i].initial_snapshot || events[i].size.malformed(),
    ensures
        BookModel::initial().apply_all(events).status(now) == Err::<(), NotLiveStatus>(
            NotLiveStatus::InitialSnapshot,
        ),
    decreases events.len(),
{
    if events.len() > 0 {
        law_bootstrapping_before_first_change(events.drop_last(), now);
    }
}

/// Once broken, a book is reported as broken after any further updates, at any time.
pub proof fn law_desync_is_permanent(book: BookModel, events: Seq<UpdateEvent>, now: Time)
    requires
        book.snapshot_status == SnapshotStatus::Error,
    ensures
        book.apply_all(events).status(now) == Err::<(), NotLiveStatus>(
            NotLiveStatus::SnapshotError,
        ),
{
    lemma_status_after(book, events);
    law_error_absorbs(taken_kinds(events));
}

/// A book that was reset has no best level on either side and is, at any time,
/// reported as in its first snapshot.
pub proof fn law_reset(now: Time)
    ensures
        BookModel::initial().is_best_level(Side::Buy, None),
        BookModel::initial().is_best_level(Side::Sell, None),
        forall|best: (Price, Size)|
            !BookModel::initial().is_best_level(Side::Buy, Some(best))
                && !BookModel::initial().is_best_level(Side::Sell, Some(best)),
        BookModel::initial().status(now) == Err::<(), NotLiveStatus>(
            NotLiveStatus::InitialSnapshot,
        ),
{
}

} // verus!
