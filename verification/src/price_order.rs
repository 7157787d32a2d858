//! The order of prices: that of their counts of millionths.

use std::cmp::Ordering;
use vstd::prelude::*;
use vstd::std_specs::cmp::PartialOrdSpec;
use crate::price::Price;

verus! {

impl PartialOrd for Price {
    fn partial_cmp(&self, other: &Price) -> (r: Option<Ordering>) {
        if self.0 < other.0 {
            Some(Ordering::Less)
        } else if self.0 > other.0 {
            Some(Ordering::Greater)
        } else {
            Some(Ordering::Equal)
        }
    }
}

impl vstd::std_specs::cmp::PartialOrdSpecImpl for Price {
    open spec fn obeys_partial_cmp_spec() -> bool {
        true
    }

    open spec fn partial_cmp_spec(&self, other: &Price) -> Option<Ordering> {
        if self.0 < other.0 {
            Some(Ordering::Less)
        } else if self.0 > other.0 {
            Some(Ordering::Greater)
        } else {
            Some(Ordering::Equal)
        }
    }
}

/// Prices are in the order of their counts, and that order is total: of two
/// prices one is less, or they are equal, or the other is less.
pub proof fn law_order_of_prices(a: Price, b: Price)
    ensures
        a.partial_cmp_spec(&b) == Some(Ordering::Less) <==> a.0 < b.0,
        a.partial_cmp_spec(&b) == Some(Ordering::Equal) <==> a == b,
        a.partial_cmp_spec(&b) == Some(Ordering::Greater) <==> b.0 < a.0,
        a.partial_cmp_spec(&b) is Some,
{
}

} // verus!
