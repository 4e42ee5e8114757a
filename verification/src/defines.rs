//! The book and the decoded feed messages that drive it.
//!
//! Prices and quantities are unsigned integers that stand for the feed's
//! decimal numbers. The caller picks the encoding and uses it for every
//! message: equal numbers must give equal integers, a larger number a larger
//! integer, and zero must give zero.

use crate::levels::{is_best, Side};
use crate::tracking::{applied, loaded, SideState};
use std::collections::HashMap;
use vstd::prelude::*;

verus! {

/// One field of a wire entry: an action word or a number. Prices and
/// quantities are both numbers, so both arrive as `Price`.
#[derive(Debug, PartialEq)]
pub enum OrderContents {
    Change(String),
    Price(u64),
}

/// The notification that opens a subscription and carries the full book.
pub struct FirstNotification {
    pub jsonrpc: String,
    pub method: String,
    pub params: ParamsSnapshot,
}

/// A notification that carries one incremental change.
pub struct Notification {
    pub jsonrpc: String,
    pub method: String,
    pub params: ParamsChange,
}

/// The channel a snapshot came on, and the snapshot.
pub struct ParamsSnapshot {
    pub channel: String,
    pub data: DataSnapshot,
}

/// The channel a change came on, and the change.
pub struct ParamsChange {
    pub channel: String,
    pub data: DataChange,
}

/// A full replacement of both sides. Each entry of `bids` and `asks` holds
/// the price at index 1 and the quantity at index 2.
pub struct DataSnapshot {
    pub _type: String,
    pub timestamp: u64,
    pub instrument_name: String,
    pub change_id: u64,
    pub bids: Vec<Vec<OrderContents>>,
    pub asks: Vec<Vec<OrderContents>>,
}

/// An incremental change, valid only on a book whose `change_id` is
/// `prev_change_id`. Each entry of `bids` and `asks` holds the action at
/// index 0, the price at index 1 and, unless it deletes, the quantity at
/// index 2.
pub struct DataChange {
    pub _type: String,
    pub timestamp: u64,
    pub prev_change_id: u64,
    pub instrument_name: String,
    pub change_id: u64,
    pub bids: Vec<Vec<OrderContents>>,
    pub asks: Vec<Vec<OrderContents>>,
}

/// The replica: the last change applied, the cached best level of each side,
/// and every level of each side by price.
#[derive(Debug)]
pub struct Book {
    /// The last change applied; 0 on a book that holds nothing yet.
    pub change_id: u64,
    /// The highest bid price; 0 while there is no bid.
    pub highest_bid: u64,
    /// The quantity at the highest bid price; 0 while there is no bid.
    pub highest_quantity: u64,
    /// The lowest ask price; `u64::MAX` while there is no ask.
    pub lowest_ask: u64,
    /// The quantity at the lowest ask price; 0 while there is no ask.
    pub lowest_quantity: u64,
    /// Quantity by price, for every bid.
    pub bids: HashMap<u64, u64>,
    /// Quantity by price, for every ask.
    pub asks: HashMap<u64, u64>,
}

/// What became of a change handed to the book.
#[derive(Clone, Copy, Debug, PartialEq, Eq, Structural)]
pub enum Outcome {
    /// The change followed the book's last one and is now part of it.
    Applied,
    /// The change did not follow the book's last one. The book was reset and
    /// needs a fresh snapshot.
    GapDetected,
}

/// A book as a mathematical value.
#[verifier::ext_equal]
pub struct BookView {
    pub change_id: u64,
    pub highest_bid: u64,
    pub highest_quantity: u64,
    pub lowest_ask: u64,
    pub lowest_quantity: u64,
    pub bids: Map<u64, u64>,
    pub asks: Map<u64, u64>,
}

impl BookView {
    /// The book that holds nothing: no change applied, no level on either
    /// side, and each side's cache at its sentinel.
    pub open spec fn empty() -> BookView {
        BookView {
            change_id: 0,
            highest_bid: Side::Bid.sentinel(),
            highest_quantity: 0,
            lowest_ask: Side::Ask.sentinel(),
            lowest_quantity: 0,
            bids: Map::empty(),
            asks: Map::empty(),
        }
    }

    /// The bid side at rest.
    pub open spec fn bid_side(self) -> SideState {
        SideState::settled(self.bids, self.highest_bid, self.highest_quantity)
    }

    /// The ask side at rest.
    pub open spec fn ask_side(self) -> SideState {
        SideState::settled(self.asks, self.lowest_ask, self.lowest_quantity)
    }

    /// The book made of a change identifier and two sides.
    pub open spec fn assemble(change_id: u64, bids: SideState, asks: SideState) -> BookView {
        BookView {
            change_id,
            highest_bid: bids.price,
            highest_quantity: bids.quantity,
            lowest_ask: asks.price,
            lowest_quantity: asks.quantity,
            bids: bids.levels,
            asks: asks.levels,
        }
    }

    /// The book that a snapshot describes: its change identifier, the
    /// levels that its entries store, and the best level of each side.
    pub open spec fn of_snapshot(snapshot: DataSnapshot) -> BookView {
        BookView::assemble(
            snapshot.change_id,
            loaded(Side::Bid, snapshot.bids@),
            loaded(Side::Ask, snapshot.asks@),
        )
    }

    /// Whether `change` follows the last change that this book holds.
    pub open spec fn chains(self, change: DataChange) -> bool {
        change.prev_change_id == self.change_id
    }

    /// The book after `change` was handed to it. A change that follows the
    /// book's last one is applied to the bid side and to the ask side, each
    /// on its own; any other change leaves the empty book, and nothing of it
    /// is applied.
    pub open spec fn after(self, change: DataChange) -> BookView {
        if self.chains(change) {
            BookView::assemble(
                change.change_id,
                applied(Side::Bid, self.bid_side(), change.bids@),
                applied(Side::Ask, self.ask_side(), change.asks@),
            )
        } else {
            BookView::empty()
        }
    }

    /// What handing `change` to this book reports.
    pub open spec fn outcome(self, change: DataChange) -> Outcome {
        if self.chains(change) {
            Outcome::Applied
        } else {
            Outcome::GapDetected
        }
    }

    /// The cached best bid is the highest stored bid and the cached best ask
    /// the lowest stored ask, each with the quantity stored at that price.
    pub open spec fn well_formed(self) -> bool {
        &&& self.bids.dom().finite()
        &&& self.asks.dom().finite()
        &&& is_best(Side::Bid, self.bids, self.highest_bid, self.highest_quantity)
        &&& is_best(Side::Ask, self.asks, self.lowest_ask, self.lowest_quantity)
    }
}

impl View for Book {
    type V = BookView;

    open spec fn view(&self) -> BookView {
        BookView {
            change_id: self.change_id,
            highest_bid: self.highest_bid,
            highest_quantity: self.highest_quantity,
            lowest_ask: self.lowest_ask,
            lowest_quantity: self.lowest_quantity,
            bids: self.bids@,
            asks: self.asks@,
        }
    }
}

} // verus!
