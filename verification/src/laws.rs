//! What holds of the book whatever the feed sends.

use crate::defines::{BookView, DataChange, DataSnapshot, OrderContents, Outcome};
use crate::entries::{change_of, level_of, Instruction};
use crate::levels::{best_level, is_best, lemma_best_level, lemma_best_level_iff, Side};
use crate::tracking::{
    applied, lemma_applied_sound, lemma_levels_of_finite, levels_of, loaded,
    run, settle, step, SideState,
};
use vstd::prelude::*;

verus! {

/// Whether a snapshot entry carries a level at `price`.
pub open spec fn carries(entry: Seq<OrderContents>, price: u64) -> bool {
    level_of(entry) matches Some(level) && level.0 == price
}

/// The levels that a change leaves on a side: each entry, in order, removes
/// or stores the level it names.
pub open spec fn levels_after(levels: Map<u64, u64>, entries: Seq<Vec<OrderContents>>) -> Map<
    u64,
    u64,
>
    decreases entries.len(),
{
    if entries.len() == 0 {
        levels
    } else {
        let earlier = levels_after(levels, entries.drop_last());
        match change_of(entries.last()@) {
            Instruction::Delete { price } => earlier.remove(price),
            Instruction::Upsert { price, quantity } => earlier.insert(price, quantity),
            Instruction::Skip => earlier,
        }
    }
}

/// The empty book is well formed.
pub proof fn lemma_empty_well_formed()
    ensures
        BookView::empty().well_formed(),
{
}

/// A price is stored by a snapshot exactly if some entry carries a level at
/// that price, and the quantity stored there is that of the last such entry.
pub proof fn lemma_levels_of_last_entry(entries: Seq<Vec<OrderContents>>, price: u64)
    ensures
        levels_of(entries).contains_key(price) <==> exists|i: int|
            0 <= i < entries.len() && carries(#[trigger] entries[i]@, price),
        levels_of(entries).contains_key(price) ==> exists|i: int|
            {
                &&& 0 <= i < entries.len()
                &&& level_of(#[trigger] entries[i]@) == Some((price, levels_of(entries)[price]))
                &&& forall|j: int| i < j < entries.len() ==> !carries(#[trigger] entries[j]@, price)
            },
    decreases entries.len(),
{
    if entries.len() > 0 {
        let earlier = entries.drop_last();
        let last = entries.len() - 1;
        lemma_levels_of_last_entry(earlier, price);
        if !carries(entries.last()@, price) {
            if levels_of(entries).contains_key(price) {
                let i = choose|i: int|
                    {
                        &&& 0 <= i < earlier.len()
                        &&& level_of(#[trigger] earlier[i]@) == Some(
                            (price, levels_of(earlier)[price]),
                        )
                        &&& forall|j: int|
                            i < j < earlier.len() ==> !carries(#[trigger] earlier[j]@, price)
                    };
                assert forall|j: int| i < j < entries.len() implies !carries(
                    #[trigger] entries[j]@,
                    price,
                ) by {
                    if j < last {
                        assert(earlier[j] == entries[j]);
                    }
                }
            }
            if exists|i: int| 0 <= i < entries.len() && carries(#[trigger] entries[i]@, price) {
                let i = choose|i: int|
                    0 <= i < entries.len() && carries(#[trigger] entries[i]@, price);
                assert(carries(earlier[i]@, price));
            }
        }
    }
}

/// `(price, quantity)` is the best level that the entries of a snapshot
/// carry on `side`: no entry carries a better price, and the last entry at
/// `price` carries `quantity`. Where no entry carries a level, it is the
/// side's sentinel price with quantity zero.
pub open spec fn is_best_carried(
    side: Side,
    entries: Seq<Vec<OrderContents>>,
    price: u64,
    quantity: u64,
) -> bool {
    if exists|i: int| 0 <= i < entries.len() && level_of(#[trigger] entries[i]@) is Some {
        &&& forall|i: int, other: u64|
            0 <= i < entries.len() && #[trigger] carries(entries[i]@, other) ==> side.no_worse(
                price,
                other,
            )
        &&& exists|i: int|
            {
                &&& 0 <= i < entries.len()
                &&& level_of(#[trigger] entries[i]@) == Some((price, quantity))
                &&& forall|j: int| i < j < entries.len() ==> !carries(#[trigger] entries[j]@, price)
            }
    } else {
        price == side.sentinel() && quantity == 0
    }
}

/// After a snapshot is loaded, the cache of a side holds the best level that
/// the side's entries carry.
pub proof fn lemma_snapshot_best(side: Side, entries: Seq<Vec<OrderContents>>)
    ensures
        is_best_carried(
            side,
            entries,
            loaded(side, entries).price,
            loaded(side, entries).quantity,
        ),
{
    let levels = levels_of(entries);
    let best = loaded(side, entries);
    lemma_levels_of_finite(entries);
    lemma_best_level(side, levels);
    if exists|i: int| 0 <= i < entries.len() && level_of(#[trigger] entries[i]@) is Some {
        assert forall|i: int, other: u64|
            0 <= i < entries.len() && #[trigger] carries(entries[i]@, other) implies side.no_worse(
            best.price,
            other,
        ) by {
            lemma_levels_of_last_entry(entries, other);
        }
        let i = choose|i: int| 0 <= i < entries.len() && level_of(#[trigger] entries[i]@) is Some;
        let level = level_of(entries[i]@)->0;
        lemma_levels_of_last_entry(entries, level.0);
        lemma_levels_of_last_entry(entries, best.price);
    } else {
        if exists|k: u64| levels.contains_key(k) {
            let k = choose|k: u64| levels.contains_key(k);
            lemma_levels_of_last_entry(entries, k);
        }
    }
}

/// The book that a snapshot describes is well formed, and its caches hold
/// the highest bid and the lowest ask that the snapshot carries, each with
/// the quantity that the snapshot gives it last; a side on which the snapshot
/// carries nothing is cached as its sentinel price with quantity zero.
pub proof fn lemma_snapshot_invariant(snapshot: DataSnapshot)
    ensures
        BookView::of_snapshot(snapshot).well_formed(),
        BookView::of_snapshot(snapshot).change_id == snapshot.change_id,
        is_best_carried(
            Side::Bid,
            snapshot.bids@,
            BookView::of_snapshot(snapshot).highest_bid,
            BookView::of_snapshot(snapshot).highest_quantity,
        ),
        is_best_carried(
            Side::Ask,
            snapshot.asks@,
            BookView::of_snapshot(snapshot).lowest_ask,
            BookView::of_snapshot(snapshot).lowest_quantity,
        ),
{
    lemma_levels_of_finite(snapshot.bids@);
    lemma_levels_of_finite(snapshot.asks@);
    lemma_best_level(Side::Bid, levels_of(snapshot.bids@));
    lemma_best_level(Side::Ask, levels_of(snapshot.asks@));
    lemma_snapshot_best(Side::Bid, snapshot.bids@);
    lemma_snapshot_best(Side::Ask, snapshot.asks@);
}

/// A change that follows the book's last one and has no entry on either side
/// changes the change identifier and nothing else.
pub proof fn lemma_empty_change_keeps_levels(book: BookView, change: DataChange)
    requires
        book.chains(change),
        change.bids@.len() == 0,
        change.asks@.len() == 0,
    ensures
        book.after(change) == (BookView { change_id: change.change_id, ..book }),
        book.outcome(change) == Outcome::Applied,
{
}

/// A change that does not follow the book's last one leaves the empty book,
/// whatever its entries are, and is reported as a gap.
pub proof fn lemma_gap_resets(book: BookView, change: DataChange)
    requires
        !book.chains(change),
    ensures
        book.after(change) == BookView::empty(),
        book.outcome(change) == Outcome::GapDetected,
{
}

/// Removing the level that is cached as best leaves, once the side is at
/// rest again, the best of the levels that remain.
pub proof fn lemma_delete_best_rescans(side: Side, state: SideState)
    requires
        state.sound(side),
        !state.stale,
    ensures
        ({
            let removed = step(side, state, Instruction::Delete { price: state.price });
            let rest = settle(side, removed);
            &&& removed.stale
            &&& rest.levels == state.levels.remove(state.price)
            &&& (rest.price, rest.quantity) == best_level(side, rest.levels)
            &&& is_best(side, rest.levels, rest.price, rest.quantity)
        }),
{
    lemma_best_level(side, state.levels.remove(state.price));
}

/// The levels that a change leaves on a side do not depend on the cache.
pub proof fn lemma_run_levels(side: Side, state: SideState, entries: Seq<Vec<OrderContents>>)
    ensures
        run(side, state, entries).levels == levels_after(state.levels, entries),
    decreases entries.len(),
{
    if entries.len() > 0 {
        lemma_run_levels(side, state, entries.drop_last());
    }
}

/// On a side whose cache held its best level, a whole change leaves the
/// levels that its entries ask for, and in the cache the best of them.
pub proof fn lemma_applied_best(side: Side, state: SideState, entries: Seq<Vec<OrderContents>>)
    requires
        state.sound(side),
        !state.stale,
    ensures
        ({
            let after = applied(side, state, entries);
            &&& after.levels == levels_after(state.levels, entries)
            &&& after.levels.dom().finite()
            &&& (after.price, after.quantity) == best_level(side, after.levels)
            &&& is_best(side, after.levels, after.price, after.quantity)
            &&& !after.stale
        }),
{
    lemma_run_levels(side, state, entries);
    lemma_applied_sound(side, state, entries);
    let after = applied(side, state, entries);
    lemma_best_level_iff(side, after.levels, after.price, after.quantity);
}

/// Every change leaves a well-formed book well formed: after it, the cached
/// best bid is the highest bid that remains and the cached best ask the
/// lowest ask that remains, also where the change removed the best level of a
/// side, once or many times.
pub proof fn lemma_after_well_formed(book: BookView, change: DataChange)
    requires
        book.well_formed(),
    ensures
        book.after(change).well_formed(),
        book.chains(change) ==> {
            &&& book.after(change).change_id == change.change_id
            &&& book.after(change).bids == levels_after(book.bids, change.bids@)
            &&& book.after(change).asks == levels_after(book.asks, change.asks@)
        },
{
    if book.chains(change) {
        lemma_applied_best(Side::Bid, book.bid_side(), change.bids@);
        lemma_applied_best(Side::Ask, book.ask_side(), change.asks@);
    }
}

} // verus!
