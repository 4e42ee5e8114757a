//! One side of the book: its price levels and which of them is the best.

use std::collections::HashMap;
use vstd::prelude::*;

verus! {

/// Which side of the book a level belongs to.
#[derive(Clone, Copy, Debug, PartialEq, Eq, Structural)]
pub enum Side {
    /// Buy orders: a higher price is better.
    Bid,
    /// Sell orders: a lower price is better.
    Ask,
}

impl Side {
    /// The price cached for a side that holds no level.
    pub open spec fn sentinel(self) -> u64 {
        match self {
            Side::Bid => 0,
            Side::Ask => u64::MAX,
        }
    }

    /// Whether `price` is at least as good as `other` on this side.
    pub open spec fn no_worse(self, price: u64, other: u64) -> bool {
        match self {
            Side::Bid => price >= other,
            Side::Ask => price <= other,
        }
    }

    /// The price that stands for "no level" on this side.
    pub fn empty_price(self) -> (price: u64)
        ensures
            price == self.sentinel(),
    {
        match self {
            Side::Bid => 0,
            Side::Ask => u64::MAX,
        }
    }

    /// Compares two prices by this side's notion of "better".
    pub fn is_no_worse(self, price: u64, other: u64) -> (b: bool)
        ensures
            b == self.no_worse(price, other),
    {
        match self {
            Side::Bid => price >= other,
            Side::Ask => price <= other,
        }
    }
}

/// `(price, quantity)` is the best level of `levels` on `side`: the stored
/// level whose price no other stored price beats, or the side's sentinel
/// price with quantity zero when nothing is stored.
pub open spec fn is_best(side: Side, levels: Map<u64, u64>, price: u64, quantity: u64) -> bool {
    if exists|k: u64| levels.contains_key(k) {
        &&& levels.contains_key(price)
        &&& levels[price] == quantity
        &&& forall|k: u64| levels.contains_key(k) ==> side.no_worse(price, k)
    } else {
        price == side.sentinel() && quantity == 0
    }
}

/// The best level of `levels` on `side`, as a `(price, quantity)` pair.
pub open spec fn best_level(side: Side, levels: Map<u64, u64>) -> (u64, u64) {
    choose|best: (u64, u64)| is_best(side, levels, best.0, best.1)
}

/// A side has at most one best level.
pub proof fn lemma_best_unique(
    side: Side,
    levels: Map<u64, u64>,
    first: (u64, u64),
    second: (u64, u64),
)
    requires
        is_best(side, levels, first.0, first.1),
        is_best(side, levels, second.0, second.1),
    ensures
        first == second,
{
}

/// Among finitely many prices, and at least one, some price is beaten by none.
proof fn lemma_extreme_exists(side: Side, prices: Set<u64>)
    requires
        prices.finite(),
        exists|k: u64| prices.contains(k),
    ensures
        exists|p: u64|
            prices.contains(p) && forall|k: u64| prices.contains(k) ==> side.no_worse(p, k),
    decreases prices.len(),
{
    let a = choose|k: u64| prices.contains(k);
    let rest = prices.remove(a);
    if exists|k: u64| rest.contains(k) {
        lemma_extreme_exists(side, rest);
        let m = choose|p: u64|
            rest.contains(p) && forall|k: u64| rest.contains(k) ==> side.no_worse(p, k);
        // The best of the rest is the best of all unless `a` beats it, and
        // then `a` is.
        if side.no_worse(m, a) {
            assert(prices.contains(m));
        }
    }
}

/// A side with finitely many levels has a best level, and `best_level` is it.
pub proof fn lemma_best_level(side: Side, levels: Map<u64, u64>)
    requires
        levels.dom().finite(),
    ensures
        is_best(side, levels, best_level(side, levels).0, best_level(side, levels).1),
{
    if exists|k: u64| levels.contains_key(k) {
        lemma_extreme_exists(side, levels.dom());
        let p = choose|p: u64|
            levels.dom().contains(p) && forall|k: u64|
                levels.dom().contains(k) ==> side.no_worse(p, k);
        let witness = (p, levels[p]);
        assert(is_best(side, levels, witness.0, witness.1));
    } else {
        let witness = (side.sentinel(), 0u64);
        assert(is_best(side, levels, witness.0, witness.1));
    }
}

/// On a side with finitely many levels, being the best level and being
/// `best_level` are the same thing.
pub proof fn lemma_best_level_iff(side: Side, levels: Map<u64, u64>, price: u64, quantity: u64)
    requires
        levels.dom().finite(),
    ensures
        is_best(side, levels, price, quantity) <==> best_level(side, levels) == (price, quantity),
{
    lemma_best_level(side, levels);
    if is_best(side, levels, price, quantity) {
        lemma_best_unique(side, levels, (price, quantity), best_level(side, levels));
    }
}

/// Finds the best level of a side by one pass over its store.
pub fn scan_best(side: Side, levels: &HashMap<u64, u64>) -> (best: (u64, u64))
    ensures
        is_best(side, levels@, best.0, best.1),
        best == best_level(side, levels@),
{
    let mut price: u64 = side.empty_price();
    let mut quantity: u64 = 0;
    let mut seen: bool = false;
    for (k, v) in it: levels.iter()
        invariant
            !seen ==> it.index() == 0 && price == side.sentinel() && quantity == 0,
            seen ==> exists|j: int| 0 <= j < it.index() && *(#[trigger] it.seq()[j]).0 == price && *it.seq()[j].1 == quantity,
            forall|j: int| 0 <= j < it.index() ==> side.no_worse(price, *(#[trigger] it.seq()[j]).0),
    {
        if !seen || side.is_no_worse(*k, price) {
            price = *k;
            quantity = *v;
            seen = true;
        }
    }
    proof {
        lemma_best_level_iff(side, levels@, price, quantity);
    }
    (price, quantity)
}

} // verus!
