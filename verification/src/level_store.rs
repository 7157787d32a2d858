//! The price levels of both sides of the book.
//!
//! Each side maps a price, as its count of millionths, to the size that rests
//! there. A level exists from the first update with a size other than zero until
//! an update with a size of zero.

use std::collections::BTreeMap;
use vstd::prelude::*;
use crate::price::Price;
use crate::side::Side;
use crate::size::{Size, SizeKind};

verus! {

/// Why an update was refused.
#[derive(Clone, Copy, Debug, PartialEq, Eq, Structural)]
pub enum ApplyError {
    /// The size is below zero or not a number.
    MalformedUpdate,
}

/// One side of the book after an update of `price` to `size`: the level is gone
/// for a size of zero and holds the size otherwise.
pub open spec fn updated_levels(levels: Map<i64, Size>, price: Price, size: Size) -> Map<
    i64,
    Size,
> {
    if size.spec_kind() == SizeKind::Zero {
        levels.remove(price.0)
    } else {
        levels.insert(price.0, size)
    }
}

/// Whether `key` is the best price of a side: the highest bid, the lowest ask.
pub open spec fn is_best(levels: Map<i64, Size>, side: Side, key: i64) -> bool {
    &&& levels.contains_key(key)
    &&& forall|other: i64| #[trigger]
        levels.contains_key(other) ==> match side {
            Side::Buy => other <= key,
            Side::Sell => key <= other,
        }
}

/// `BTreeMap::first_key_value`: the entry with the least key, copied out;
/// `None` exactly for a map without entries.
#[verifier::external_body]
fn first_level(levels: &BTreeMap<i64, Size>) -> (first: Option<(i64, Size)>)
    ensures
        match first {
            None => levels@.dom() =~= Set::<i64>::empty(),
            Some((key, size)) => is_best(levels@, Side::Sell, key) && levels@[key] == size,
        },
{
    match levels.first_key_value() {
        Some((key, size)) => Some((*key, *size)),
        None => None,
    }
}

/// `BTreeMap::last_key_value`: the entry with the greatest key, copied out;
/// `None` exactly for a map without entries.
#[verifier::external_body]
fn last_level(levels: &BTreeMap<i64, Size>) -> (last: Option<(i64, Size)>)
    ensures
        match last {
            None => levels@.dom() =~= Set::<i64>::empty(),
            Some((key, size)) => is_best(levels@, Side::Buy, key) && levels@[key] == size,
        },
{
    match levels.last_key_value() {
        Some((key, size)) => Some((*key, *size)),
        None => None,
    }
}

/// The resting sizes of the bids and of the asks, each in the order of its prices.
pub struct LevelStore {
    bids: BTreeMap<i64, Size>,
    asks: BTreeMap<i64, Size>,
}

impl LevelStore {
    /// The levels of one side: the size at each price that has one.
    pub closed spec fn levels(&self, side: Side) -> Map<i64, Size> {
        match side {
            Side::Buy => self.bids@,
            Side::Sell => self.asks@,
        }
    }

    /// A store without levels.
    pub fn new() -> (store: LevelStore)
        ensures
            store.levels(Side::Buy) == Map::<i64, Size>::empty(),
            store.levels(Side::Sell) == Map::<i64, Size>::empty(),
    {
        LevelStore { bids: BTreeMap::new(), asks: BTreeMap::new() }
    }

    /// Sets the size at `price` on `side`.
    ///
    /// A size of zero removes the level, and does nothing where there is none.
    /// Any other quantity becomes the size of the level, new or not. A size below
    /// zero or not a number is refused, and the store stays as it is. The other
    /// side is never touched.
    pub fn upsert_or_remove(&mut self, side: Side, price: Price, size: Size) -> (res: Result<
        (),
        ApplyError,
    >)
        ensures
            res is Err <==> size.malformed(),
            res matches Err(error) ==> error == ApplyError::MalformedUpdate && forall|s: Side|
                final(self).levels(s) == old(self).levels(s),
            res is Ok ==> final(self).levels(side) == updated_levels(
                old(self).levels(side),
                price,
                size,
            ),
            forall|s: Side| s != side ==> final(self).levels(s) == old(self).levels(s),
            size.spec_kind() == SizeKind::Zero && !old(self).levels(side).contains_key(price.0)
                ==> final(self).levels(side) == old(self).levels(side),
    {
        broadcast use vstd::std_specs::btree::group_btree_axioms;

        let kind = size.kind();
        match kind {
            SizeKind::Negative | SizeKind::NotANumber => {
                return Err(ApplyError::MalformedUpdate);
            },
            SizeKind::Zero => {
                match side {
                    Side::Buy => {
                        self.bids.remove(&price.0);
                    },
                    Side::Sell => {
                        self.asks.remove(&price.0);
                    },
                }
            },
            SizeKind::Resting => {
                match side {
                    Side::Buy => {
                        self.bids.insert(price.0, size);
                    },
                    Side::Sell => {
                        self.asks.insert(price.0, size);
                    },
                }
            },
        }
        proof {
            let before = old(self).levels(side);
            if size.spec_kind() == SizeKind::Zero && !before.contains_key(price.0) {
                assert(before.remove(price.0) =~= before);
            }
        }
        Ok(())
    }

    /// The best level of a side: the highest bid, the lowest ask, each with its
    /// size; `None` where the side has no level.
    pub fn best(&self, side: Side) -> (best: Option<(Price, Size)>)
        ensures
            best is None <==> self.levels(side).dom() =~= Set::<i64>::empty(),
            best matches Some((price, size)) ==> is_best(self.levels(side), side, price.0)
                && self.levels(side)[price.0] == size,
    {
        let found = match side {
            Side::Buy => last_level(&self.bids),
            Side::Sell => first_level(&self.asks),
        };
        match found {
            Some((key, size)) => Some((Price(key), size)),
            None => None,
        }
    }

    /// The number of levels on a side.
    pub fn level_count(&self, side: Side) -> (count: usize)
        ensures
            count == self.levels(side).len(),
            self.levels(side).dom().finite(),
    {
        broadcast use vstd::std_specs::btree::group_btree_axioms;

        match side {
            Side::Buy => self.bids.len(),
            Side::Sell => self.asks.len(),
        }
    }

    /// Removes every level of both sides.
    pub fn clear(&mut self)
        ensures
            final(self).levels(Side::Buy) == Map::<i64, Size>::empty(),
            final(self).levels(Side::Sell) == Map::<i64, Size>::empty(),
    {
        self.bids.clear();
        self.asks.clear();
    }
}

} // verus!
