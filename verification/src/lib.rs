//! The order book of one instrument, kept in step with an exchange's feed.
//!
//! The feed sends the book once, level by level, and from then on every change
//! of a level. [`book_processor::BookProcessor`] takes these updates one by one
//! and answers three questions about the result: which is the best level of a
//! side, how many levels a side has, and whether the book can be used at a
//! given time. A book is not to be used while its snapshot is still coming,
//! when no update has come for half a second, and, until it is reset, once a
//! snapshot entry has come after a change.
//!
//! * [`price`]: prices as exact counts of millionths, read from decimal strings;
//!   [`price_laws`] and [`price_order`] state what holds of them.
//! * [`size`]: the quantity at a level.
//! * [`side`]: bids and asks.
//! * [`time`]: points in time and the spans between them.
//! * [`level_store`]: the levels of both sides, in the order of their prices.
//! * [`book_processor`]: the book; [`book_laws`] states what holds of every book.
//! * [`feed`], [`gdax`], [`gemini`]: the decoded messages of two exchanges, and
//!   what each does to the book.
//! * [`message_processor`]: the lines of a record of a feed.
//! * [`text`]: comparison of strings.

pub mod book_laws;
pub mod book_processor;
pub mod feed;
pub mod gdax;
pub mod gemini;
pub mod level_store;
pub mod message_processor;
pub mod price;
pub mod price_laws;
pub mod price_order;
pub mod side;
pub mod size;
pub mod text;
pub mod time;
