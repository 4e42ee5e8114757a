//! Following the best level of one side while a message is applied to it.
//!
//! A change is applied entry by entry. The cached best level is kept up to
//! date as long as that costs nothing; once an entry removes the cached level
//! the cache is marked stale, and the side is scanned once, after the last
//! entry, however many entries removed the best level in between.

use crate::defines::OrderContents;
use crate::entries::{change_of, level_of, read_change, read_level, Instruction};
use crate::levels::{
    best_level, is_best, lemma_best_level, lemma_best_level_iff, scan_best, Side,
};
use std::collections::HashMap;
use vstd::prelude::*;

verus! {

/// One side of the book while entries are applied to it.
#[verifier::ext_equal]
pub struct SideState {
    /// Quantity by price.
    pub levels: Map<u64, u64>,
    /// The cached best price.
    pub price: u64,
    /// The cached quantity at the best price.
    pub quantity: u64,
    /// Whether the cached best level was removed, so that the cache has to
    /// be rebuilt from `levels` before it is read.
    pub stale: bool,
}

impl SideState {
    /// A side at rest: its levels and its cache, not stale.
    pub open spec fn settled(levels: Map<u64, u64>, price: u64, quantity: u64) -> SideState {
        SideState { levels, price, quantity, stale: false }
    }

    /// The cache of a side that is not stale holds the side's best level.
    pub open spec fn sound(self, side: Side) -> bool {
        &&& self.levels.dom().finite()
        &&& !self.stale ==> is_best(side, self.levels, self.price, self.quantity)
    }
}

/// The side after one instruction.
///
/// Deleting removes the price; if it was the cached best price, the cache
/// falls back to the sentinel and becomes stale. Upserting stores the
/// quantity at the price; if the price is at least as good as the cached one,
/// the cache takes the new level, which also refreshes the cached quantity
/// when the best level itself is updated.
pub open spec fn step(side: Side, state: SideState, instruction: Instruction) -> SideState {
    match instruction {
        Instruction::Delete { price } => {
            if state.price == price {
                SideState {
                    levels: state.levels.remove(price),
                    price: side.sentinel(),
                    quantity: 0,
                    stale: true,
                }
            } else {
                SideState { levels: state.levels.remove(price), ..state }
            }
        },
        Instruction::Upsert { price, quantity } => {
            if side.no_worse(price, state.price) {
                SideState { levels: state.levels.insert(price, quantity), price, quantity, ..state }
            } else {
                SideState { levels: state.levels.insert(price, quantity), ..state }
            }
        },
        Instruction::Skip => state,
    }
}

/// The side after every entry of a change, in order, before any rescan.
pub open spec fn run(side: Side, state: SideState, entries: Seq<Vec<OrderContents>>) -> SideState
    decreases entries.len(),
{
    if entries.len() == 0 {
        state
    } else {
        step(side, run(side, state, entries.drop_last()), change_of(entries.last()@))
    }
}

/// The side at rest again: a stale cache is replaced by the best level of
/// what is stored now.
pub open spec fn settle(side: Side, state: SideState) -> SideState {
    if state.stale {
        let best = best_level(side, state.levels);
        SideState { levels: state.levels, price: best.0, quantity: best.1, stale: false }
    } else {
        state
    }
}

/// The side after a whole change.
pub open spec fn applied(side: Side, state: SideState, entries: Seq<Vec<OrderContents>>) -> SideState {
    settle(side, run(side, state, entries))
}

/// The levels that a snapshot's entries store: each entry that carries a
/// level is inserted in order, a later one replacing an earlier one at the
/// same price.
pub open spec fn levels_of(entries: Seq<Vec<OrderContents>>) -> Map<u64, u64>
    decreases entries.len(),
{
    if entries.len() == 0 {
        Map::empty()
    } else {
        let earlier = levels_of(entries.drop_last());
        match level_of(entries.last()@) {
            Some((price, quantity)) => earlier.insert(price, quantity),
            None => earlier,
        }
    }
}

/// The side that a snapshot's entries describe: the levels they store, and
/// the best of those levels in the cache.
pub open spec fn loaded(side: Side, entries: Seq<Vec<OrderContents>>) -> SideState {
    let levels = levels_of(entries);
    let best = best_level(side, levels);
    SideState::settled(levels, best.0, best.1)
}

/// One instruction keeps a sound side sound.
pub proof fn lemma_step_sound(side: Side, state: SideState, instruction: Instruction)
    requires
        state.sound(side),
    ensures
        step(side, state, instruction).sound(side),
{
    let next = step(side, state, instruction);
    match instruction {
        Instruction::Delete { price } => {
            // Whatever is left was there before; if the cached level was not
            // the one removed, it is still there and still the best.
            assert(forall|k: u64| next.levels.contains_key(k) ==> state.levels.contains_key(k));
        },
        Instruction::Upsert { price, quantity } => {
            assert(next.levels.contains_key(price));
            if !state.stale && !(exists|k: u64| state.levels.contains_key(k)) {
                // Nothing beats the sentinel of an empty side, so the first
                // level stored becomes the cached one.
                assert(side.no_worse(price, state.price));
            }
        },
        Instruction::Skip => {},
    }
}

/// Every entry of a change keeps a sound side sound.
pub proof fn lemma_run_sound(side: Side, state: SideState, entries: Seq<Vec<OrderContents>>)
    requires
        state.sound(side),
    ensures
        run(side, state, entries).sound(side),
    decreases entries.len(),
{
    if entries.len() > 0 {
        lemma_run_sound(side, state, entries.drop_last());
        lemma_step_sound(
            side,
            run(side, state, entries.drop_last()),
            change_of(entries.last()@),
        );
    }
}

/// A whole change leaves a sound side sound and at rest.
pub proof fn lemma_applied_sound(side: Side, state: SideState, entries: Seq<Vec<OrderContents>>)
    requires
        state.sound(side),
    ensures
        applied(side, state, entries).sound(side),
        !applied(side, state, entries).stale,
{
    lemma_run_sound(side, state, entries);
    lemma_best_level(side, run(side, state, entries).levels);
}

/// A snapshot's entries store finitely many levels.
pub proof fn lemma_levels_of_finite(entries: Seq<Vec<OrderContents>>)
    ensures
        levels_of(entries).dom().finite(),
    decreases entries.len(),
{
    if entries.len() > 0 {
        lemma_levels_of_finite(entries.drop_last());
    }
}

/// Applies the entries of a change to one side, in order, and returns the
/// side's best level afterwards. The side is scanned at most once, and only
/// if an entry removed the level that was cached as best at that moment.
pub fn apply_entries(
    side: Side,
    levels: &mut HashMap<u64, u64>,
    best: (u64, u64),
    entries: &Vec<Vec<OrderContents>>,
) -> (new_best: (u64, u64))
    ensures
        SideState::settled(final(levels)@, new_best.0, new_best.1) == applied(
            side,
            SideState::settled(old(levels)@, best.0, best.1),
            entries@,
        ),
{
    let ghost start = SideState::settled(levels@, best.0, best.1);
    let mut price: u64 = best.0;
    let mut quantity: u64 = best.1;
    let mut stale: bool = false;
    let mut i: usize = 0;
    while i < entries.len()
        invariant
            i <= entries.len(),
            (SideState { levels: levels@, price, quantity, stale }) == run(
                side,
                start,
                entries@.take(i as int),
            ),
        decreases entries.len() - i,
    {
        proof {
            assert(entries@.take(i + 1).drop_last() =~= entries@.take(i as int));
        }
        match read_change(&entries[i]) {
            Instruction::Delete { price: removed } => {
                levels.remove(&removed);
                if price == removed {
                    price = side.empty_price();
                    quantity = 0;
                    stale = true;
                }
            },
            Instruction::Upsert { price: stored, quantity: amount } => {
                if side.is_no_worse(stored, price) {
                    price = stored;
                    quantity = amount;
                }
                levels.insert(stored, amount);
            },
            Instruction::Skip => {},
        }
        i += 1;
    }
    proof {
        assert(entries@.take(i as int) =~= entries@);
    }
    if stale {
        scan_best(side, levels)
    } else {
        (price, quantity)
    }
}

/// Builds one side from the entries of a snapshot, following the best level
/// in the same pass.
pub fn load_entries(side: Side, entries: &Vec<Vec<OrderContents>>) -> (loaded_side: (
    HashMap<u64, u64>,
    (u64, u64),
))
    ensures
        SideState::settled(loaded_side.0@, loaded_side.1.0, loaded_side.1.1) == loaded(
            side,
            entries@,
        ),
        is_best(side, loaded_side.0@, loaded_side.1.0, loaded_side.1.1),
{
    let mut levels: HashMap<u64, u64> = HashMap::new();
    let mut price: u64 = side.empty_price();
    let mut quantity: u64 = 0;
    let mut i: usize = 0;
    while i < entries.len()
        invariant
            i <= entries.len(),
            levels@ == levels_of(entries@.take(i as int)),
            SideState::settled(levels@, price, quantity).sound(side),
        decreases entries.len() - i,
    {
        proof {
            assert(entries@.take(i + 1).drop_last() =~= entries@.take(i as int));
        }
        match read_level(&entries[i]) {
            Some((stored, amount)) => {
                proof {
                    lemma_step_sound(
                        side,
                        SideState::settled(levels@, price, quantity),
                        Instruction::Upsert { price: stored, quantity: amount },
                    );
                }
                if side.is_no_worse(stored, price) {
                    price = stored;
                    quantity = amount;
                }
                levels.insert(stored, amount);
            },
            None => {},
        }
        i += 1;
    }
    proof {
        assert(entries@.take(i as int) =~= entries@);
        lemma_best_level_iff(side, levels@, price, quantity);
    }
    (levels, (price, quantity))
}

} // verus!
