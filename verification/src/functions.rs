//! The operations on the book.

use crate::defines::{
    Book, BookView, DataChange, FirstNotification, Notification, Outcome, ParamsChange,
};
use crate::levels::Side;
use crate::tracking::{apply_entries, lemma_applied_sound, load_entries};
use std::collections::HashMap;
use vstd::prelude::*;

verus! {

/// Resets the book in place to the empty book and hands it back.
pub fn clear_snapshot(book: &mut Book) -> (cleared: &mut Book)
    ensures
        cleared@ == BookView::empty(),
        cleared@.well_formed(),
        *final(book) == *final(cleared),
{
    book.bids.clear();
    book.asks.clear();
    book.change_id = 0;
    book.highest_bid = 0;
    book.highest_quantity = 0;
    book.lowest_ask = u64::MAX;
    book.lowest_quantity = 0;
    book
}

/// The empty book.
pub fn empty_snapshot() -> (book: Book)
    ensures
        book@ == BookView::empty(),
        book@.well_formed(),
{
    Book {
        change_id: 0,
        highest_bid: 0,
        highest_quantity: 0,
        lowest_ask: u64::MAX,
        lowest_quantity: 0,
        bids: HashMap::new(),
        asks: HashMap::new(),
    }
}

/// A change notification that carries nothing: every text empty, every
/// number zero, no entry on either side.
pub fn empty_change() -> (change: Notification)
    ensures
        change.jsonrpc@.len() == 0,
        change.method@.len() == 0,
        change.params.channel@.len() == 0,
        change.params.data._type@.len() == 0,
        change.params.data.instrument_name@.len() == 0,
        change.params.data.timestamp == 0,
        change.params.data.prev_change_id == 0,
        change.params.data.change_id == 0,
        change.params.data.bids@.len() == 0,
        change.params.data.asks@.len() == 0,
{
    Notification {
        jsonrpc: String::new(),
        method: String::new(),
        params: ParamsChange {
            channel: String::new(),
            data: DataChange {
                _type: String::new(),
                timestamp: 0,
                prev_change_id: 0,
                instrument_name: String::new(),
                change_id: 0,
                bids: Vec::new(),
                asks: Vec::new(),
            },
        },
    }
}

/// Builds the book that a snapshot describes. Both sides are filled in one
/// pass each, and the best level of a side is found during that pass.
pub fn get_snapshot(snapshot: &FirstNotification) -> (book: Book)
    ensures
        book@ == BookView::of_snapshot(snapshot.params.data),
        book@.well_formed(),
{
    let data = &snapshot.params.data;
    let (bids, best_bid) = load_entries(Side::Bid, &data.bids);
    let (asks, best_ask) = load_entries(Side::Ask, &data.asks);
    Book {
        change_id: data.change_id,
        highest_bid: best_bid.0,
        highest_quantity: best_bid.1,
        lowest_ask: best_ask.0,
        lowest_quantity: best_ask.1,
        bids,
        asks,
    }
}

/// Whether `change` does not follow the last change that the book holds, so
/// that changes in between were lost.
pub fn is_gap(book: &Book, change: &DataChange) -> (gap: bool)
    ensures
        gap == !book@.chains(*change),
{
    change.prev_change_id != book.change_id
}

/// Hands one change to the book.
///
/// A change that does not follow the book's last one is a gap in the feed:
/// the book is reset to the empty book before anything of the change is
/// applied, and needs a fresh snapshot. A change that follows it becomes the
/// book's last one and is applied to the bid side, then to the ask side.
pub fn update_book(book: &mut Book, c_data: DataChange) -> (outcome: Outcome)
    ensures
        final(book)@ == old(book)@.after(c_data),
        outcome == old(book)@.outcome(c_data),
        old(book)@.well_formed() ==> final(book)@.well_formed(),
{
    if is_gap(book, &c_data) {
        clear_snapshot(book);
        return Outcome::GapDetected;
    }
    proof {
        if book@.well_formed() {
            lemma_applied_sound(Side::Bid, book@.bid_side(), c_data.bids@);
            lemma_applied_sound(Side::Ask, book@.ask_side(), c_data.asks@);
        }
    }
    book.change_id = c_data.change_id;
    let best_bid = apply_entries(
        Side::Bid,
        &mut book.bids,
        (book.highest_bid, book.highest_quantity),
        &c_data.bids,
    );
    book.highest_bid = best_bid.0;
    book.highest_quantity = best_bid.1;
    let best_ask = apply_entries(
        Side::Ask,
        &mut book.asks,
        (book.lowest_ask, book.lowest_quantity),
        &c_data.asks,
    );
    book.lowest_ask = best_ask.0;
    book.lowest_quantity = best_ask.1;
    Outcome::Applied
}

} // verus!
