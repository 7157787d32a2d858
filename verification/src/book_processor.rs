//! The book of one instrument, kept in step with the feed.
//!
//! The feed first sends the whole book as a run of snapshot entries and from
//! then on only changes. The book takes each update as it comes, remembers when
//! the last one came, and tells its readers whether what it holds can be used.

use vstd::prelude::*;
use crate::level_store::{updated_levels, is_best, ApplyError, LevelStore};
use crate::price::Price;
use crate::side::Side;
use crate::size::Size;
use crate::time::Time;

verus! {

/// After how many nanoseconds without an update the book counts as stale: half
/// a second.
pub const STALE_AFTER_NANOS: i32 = 500_000_000;

/// How far the feed has come: still in its first snapshot, past it, or broken.
#[derive(Clone, Copy, Debug, PartialEq, Eq, Structural)]
pub enum SnapshotStatus {
    /// No change has come yet; snapshot entries are building the book.
    InitialSnapshot,
    /// The snapshot is over; only changes are expected.
    PostSnapshot,
    /// A snapshot entry came after a change. Nothing repairs this but a reset.
    Error,
}

impl SnapshotStatus {
    /// The next status by the kind of the update that came.
    ///
    /// | status            | snapshot entry    | change         |
    /// |-------------------|-------------------|----------------|
    /// | `InitialSnapshot` | `InitialSnapshot` | `PostSnapshot` |
    /// | `PostSnapshot`    | `Error`           | `PostSnapshot` |
    /// | `Error`           | `Error`           | `Error`        |
    pub open spec fn spec_update(self, initial_snapshot: bool) -> SnapshotStatus {
        match (self, initial_snapshot) {
            (SnapshotStatus::InitialSnapshot, true) => SnapshotStatus::InitialSnapshot,
            (SnapshotStatus::InitialSnapshot, false) => SnapshotStatus::PostSnapshot,
            (SnapshotStatus::PostSnapshot, true) => SnapshotStatus::Error,
            (SnapshotStatus::PostSnapshot, false) => SnapshotStatus::PostSnapshot,
            (SnapshotStatus::Error, _) => SnapshotStatus::Error,
        }
    }

    /// The status after a run of updates, given by their kinds in order.
    pub open spec fn after(self, kinds: Seq<bool>) -> SnapshotStatus
        decreases kinds.len(),
    {
        if kinds.len() == 0 {
            self
        } else {
            self.after(kinds.drop_last()).spec_update(kinds.last())
        }
    }

    /// The next status after an update; `initial_snapshot` says whether the update
    /// is an entry of a snapshot.
    pub fn update(&self, initial_snapshot: bool) -> (next: SnapshotStatus)
        ensures
            next == self.spec_update(initial_snapshot),
    {
        match self {
            SnapshotStatus::InitialSnapshot => {
                if initial_snapshot {
                    SnapshotStatus::InitialSnapshot
                } else {
                    SnapshotStatus::PostSnapshot
                }
            },
            SnapshotStatus::PostSnapshot => {
                if initial_snapshot {
                    SnapshotStatus::Error
                } else {
                    SnapshotStatus::PostSnapshot
                }
            },
            SnapshotStatus::Error => SnapshotStatus::Error,
        }
    }

    /// Whether the first snapshot is still being taken.
    pub fn is_bootstrapping(&self) -> (bootstrapping: bool)
        ensures
            bootstrapping == (*self == SnapshotStatus::InitialSnapshot),
    {
        match self {
            SnapshotStatus::InitialSnapshot => true,
            _ => false,
        }
    }
}

/// The different reasons for which the book data should not be used.
#[derive(Clone, Copy, Debug, PartialEq, Eq, Structural)]
pub enum NotLiveStatus {
    /// The first snapshot is not over.
    InitialSnapshot,
    /// A snapshot entry came after a change: the book mixes two snapshots.
    SnapshotError,
    /// The last update is more than half a second old.
    Stale,
}

/// One update of the feed, as every exchange's messages are brought to it.
#[derive(Clone, Copy, Debug, PartialEq, Eq, Structural)]
pub struct UpdateEvent {
    /// When the update came.
    pub time: Time,
    /// The side of the level.
    pub side: Side,
    /// The price of the level.
    pub price: Price,
    /// The size that now rests there; zero removes the level.
    pub size: Size,
    /// Whether the update is an entry of a snapshot.
    pub initial_snapshot: bool,
}

/// What a book is, apart from how it is stored.
#[verifier::ext_equal]
pub struct BookModel {
    /// The size at each bid price.
    pub bids: Map<i64, Size>,
    /// The size at each ask price.
    pub asks: Map<i64, Size>,
    /// When the last update was taken.
    pub last_update: Time,
    /// How far the feed has come.
    pub snapshot_status: SnapshotStatus,
}

impl BookModel {
    /// The book before any update: no levels, last touched at the start of 1970,
    /// waiting for the snapshot.
    pub open spec fn initial() -> BookModel {
        BookModel {
            bids: Map::empty(),
            asks: Map::empty(),
            last_update: Time::spec_epoch(),
            snapshot_status: SnapshotStatus::InitialSnapshot,
        }
    }

    /// The levels of one side.
    pub open spec fn levels(self, side: Side) -> Map<i64, Size> {
        match side {
            Side::Buy => self.bids,
            Side::Sell => self.asks,
        }
    }

    /// The book after an update.
    ///
    /// An update with a malformed size changes nothing. Any other update sets the
    /// time of the last update, moves the status by the update's kind, and sets or
    /// removes its level, whatever the status is or becomes.
    pub open spec fn apply(self, event: UpdateEvent) -> BookModel {
        if event.size.malformed() {
            self
        } else {
            BookModel {
                bids: if event.side == Side::Buy {
                    updated_levels(self.bids, event.price, event.size)
                } else {
                    self.bids
                },
                asks: if event.side == Side::Sell {
                    updated_levels(self.asks, event.price, event.size)
                } else {
                    self.asks
                },
                last_update: event.time,
                snapshot_status: self.snapshot_status.spec_update(event.initial_snapshot),
            }
        }
    }

    /// The book after a run of updates, taken in order.
    pub open spec fn apply_all(self, events: Seq<UpdateEvent>) -> BookModel
        decreases events.len(),
    {
        if events.len() == 0 {
            self
        } else {
            self.apply_all(events.drop_last()).apply(events.last())
        }
    }

    /// Whether the book can be used at the time `now`, and if not, why.
    ///
    /// A broken feed comes first, then an unfinished snapshot; only a book past
    /// its snapshot is asked for its age, and it is stale when more than half a
    /// second lies between its last update and `now`, by however little.
    pub open spec fn status(self, now: Time) -> Result<(), NotLiveStatus> {
        match self.snapshot_status {
            SnapshotStatus::Error => Err(NotLiveStatus::SnapshotError),
            SnapshotStatus::InitialSnapshot => Err(NotLiveStatus::InitialSnapshot),
            SnapshotStatus::PostSnapshot => if now.spec_nanos_since(self.last_update)
                > STALE_AFTER_NANOS {
                Err(NotLiveStatus::Stale)
            } else {
                Ok(())
            },
        }
    }

    /// Whether `best` is the best level of a side: `None` for a side without
    /// levels, else the highest bid or the lowest ask with its size.
    pub open spec fn is_best_level(self, side: Side, best: Option<(Price, Size)>) -> bool {
        match best {
            None => self.levels(side).dom() =~= Set::<i64>::empty(),
            Some((price, size)) => is_best(self.levels(side), side, price.0) && self.levels(
                side,
            )[price.0] == size,
        }
    }
}

/// The numbers of a book that a log line shows.
#[derive(Clone, Copy, Debug, PartialEq, Eq)]
pub struct Summary {
    /// The number of bid levels.
    pub bid_levels: usize,
    /// The number of ask levels.
    pub ask_levels: usize,
    /// The highest bid with its size.
    pub best_bid: Option<(Price, Size)>,
    /// The lowest ask with its size.
    pub best_ask: Option<(Price, Size)>,
}

/// The order book of one instrument.
pub struct BookProcessor {
    levels: LevelStore,
    last_update: Time,
    snapshot_status: SnapshotStatus,
}

impl View for BookProcessor {
    type V = BookModel;

    closed spec fn view(&self) -> BookModel {
        BookModel {
            bids: self.levels.levels(Side::Buy),
            asks: self.levels.levels(Side::Sell),
            last_update: self.last_update,
            snapshot_status: self.snapshot_status,
        }
    }
}

impl BookProcessor {
    /// A book before any update.
    pub fn new() -> (book: BookProcessor)
        ensures
            book@ == BookModel::initial(),
    {
        BookProcessor {
            levels: LevelStore::new(),
            last_update: Time::epoch(),
            snapshot_status: SnapshotStatus::InitialSnapshot,
        }
    }

    /// Brings the book back to what it was before any update. For a fresh
    /// connection, and the only way out of a broken feed.
    pub fn clear_on_snapshot(&mut self)
        ensures
            final(self)@ == BookModel::initial(),
    {
        self.levels.clear();
        self.last_update = Time::epoch();
        self.snapshot_status = SnapshotStatus::InitialSnapshot;
    }

    /// The level counts and best levels of both sides.
    pub fn log_summary(&self) -> (summary: Summary)
        ensures
            summary.bid_levels == self@.bids.len(),
            summary.ask_levels == self@.asks.len(),
            self@.bids.dom().finite(),
            self@.asks.dom().finite(),
            self@.is_best_level(Side::Buy, summary.best_bid),
            self@.is_best_level(Side::Sell, summary.best_ask),
    {
        Summary {
            bid_levels: self.levels.level_count(Side::Buy),
            ask_levels: self.levels.level_count(Side::Sell),
            best_bid: self.levels.best(Side::Buy),
            best_ask: self.levels.best(Side::Sell),
        }
    }

    /// Takes one update of the feed.
    ///
    /// A size below zero or not a number is refused and the book stays as it is.
    /// Every other update succeeds: the book is then as `BookModel::apply` says.
    pub fn on_update(
        &mut self,
        time: &Time,
        side: Side,
        price: Price,
        size: Size,
        initial_snapshot: bool,
    ) -> (res: Result<(), ApplyError>)
        ensures
            res is Err <==> size.malformed(),
            res matches Err(error) ==> error == ApplyError::MalformedUpdate,
            final(self)@ == old(self)@.apply(
                UpdateEvent { time: *time, side, price, size, initial_snapshot },
            ),
    {
        match self.levels.upsert_or_remove(side, price, size) {
            Err(error) => Err(error),
            Ok(()) => {
                self.last_update = *time;
                self.snapshot_status = self.snapshot_status.update(initial_snapshot);
                Ok(())
            },
        }
    }

    /// Whether the book can be used at `time`: `Ok` for a live book, else the reason.
    pub fn status(&self, time: &Time) -> (res: Result<(), NotLiveStatus>)
        ensures
            res == self@.status(*time),
    {
        match self.snapshot_status {
            SnapshotStatus::InitialSnapshot => Err(NotLiveStatus::InitialSnapshot),
            SnapshotStatus::Error => Err(NotLiveStatus::SnapshotError),
            SnapshotStatus::PostSnapshot => {
                let time_since_last_update = time.signed_duration_since(&self.last_update);
                let seconds = time_since_last_update.num_seconds();
                if seconds > 0 || (seconds == 0 && time_since_last_update.subsec_nanos()
                    > STALE_AFTER_NANOS) {
                    Err(NotLiveStatus::Stale)
                } else {
                    Ok(())
                }
            },
        }
    }

    /// The best level of a side: the highest bid, the lowest ask.
    pub fn best(&self, side: Side) -> (best: Option<(Price, Size)>)
        ensures
            self@.is_best_level(side, best),
    {
        self.levels.best(side)
    }

    /// The number of levels on a side.
    pub fn level_count(&self, side: Side) -> (count: usize)
        ensures
            count == self@.levels(side).len(),
            self@.levels(side).dom().finite(),
    {
        self.levels.level_count(side)
    }
}

} // verus!
