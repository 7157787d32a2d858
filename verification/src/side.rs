//! The side of the book that a price level rests on.

use vstd::prelude::*;
use crate::text::same_text;

verus! {

/// Side of the book: bids are `Buy`, asks are `Sell`.
#[derive(Clone, Copy, Debug, PartialEq, Eq, Structural)]
pub enum Side {
    Buy,
    Sell,
}

impl Side {
    /// The side that a feed's side word denotes, if it denotes one.
    pub open spec fn spec_of_str(word: Seq<char>) -> Option<Side> {
        if word == "buy"@ {
            Some(Side::Buy)
        } else if word == "sell"@ {
            Some(Side::Sell)
        } else {
            None
        }
    }

    /// Decodes `"buy"` and `"sell"`; any other word is an error whose text ends with the word.
    pub fn of_str(str: &str) -> (res: Result<Side, String>)
        ensures
            match res {
                Ok(side) => Side::spec_of_str(str@) == Some(side),
                Err(text) => Side::spec_of_str(str@) is None && text@ == "unknown side "@ + str@,
            },
    {
        if same_text(str, "buy") {
            Ok(Side::Buy)
        } else if same_text(str, "sell") {
            Ok(Side::Sell)
        } else {
            Err(String::from_str("unknown side ").concat(str))
        }
    }
}

} // verus!
