//! A local replica of one instrument's order book, kept in step with an
//! exchange feed: a full snapshot first, then a chain of incremental changes.
//!
//! The book holds, for each side, every price level by price and a cache of
//! the best one. A snapshot replaces the book; a change is applied only if it
//! follows the last change the book holds, and otherwise resets the book.
//! Nothing here reads the wire: callers hand over decoded messages.

pub mod defines;
pub mod entries;
pub mod functions;
pub mod laws;
pub mod levels;
pub mod tracking;

pub use defines::{
    Book, BookView, DataChange, DataSnapshot, FirstNotification, Notification, OrderContents,
    Outcome, ParamsChange, ParamsSnapshot,
};
pub use functions::{
    clear_snapshot, empty_change, empty_snapshot, get_snapshot, is_gap, update_book,
};
