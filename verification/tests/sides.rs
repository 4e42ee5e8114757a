use order_book::entries::{is_delete, read_change, read_level, Instruction};
use order_book::levels::{scan_best, Side};
use order_book::tracking::{apply_entries, load_entries};
use order_book::OrderContents;
use std::collections::HashMap;

fn word(s: &str) -> OrderContents {
    OrderContents::Change(s.to_string())
}

fn number(n: u64) -> OrderContents {
    OrderContents::Price(n)
}

#[test]
fn sentinel_prices() {
    assert_eq!(Side::Bid.empty_price(), 0);
    assert_eq!(Side::Ask.empty_price(), u64::MAX);
}

#[test]
fn bids_prefer_higher_and_asks_lower() {
    assert!(Side::Bid.is_no_worse(5, 4));
    assert!(Side::Bid.is_no_worse(5, 5));
    assert!(!Side::Bid.is_no_worse(4, 5));
    assert!(Side::Ask.is_no_worse(4, 5));
    assert!(Side::Ask.is_no_worse(5, 5));
    assert!(!Side::Ask.is_no_worse(5, 4));
}

#[test]
fn scan_of_an_empty_side_gives_the_sentinel() {
    let levels: HashMap<u64, u64> = HashMap::new();
    assert_eq!(scan_best(Side::Bid, &levels), (0, 0));
    assert_eq!(scan_best(Side::Ask, &levels), (u64::MAX, 0));
}

#[test]
fn scan_finds_the_extreme_level() {
    let mut levels: HashMap<u64, u64> = HashMap::new();
    levels.insert(30, 3);
    levels.insert(10, 1);
    levels.insert(50, 5);
    levels.insert(20, 2);
    assert_eq!(scan_best(Side::Bid, &levels), (50, 5));
    assert_eq!(scan_best(Side::Ask, &levels), (10, 1));
}

#[test]
fn scan_of_a_single_level_at_the_sentinel_price_keeps_its_quantity() {
    let mut bids: HashMap<u64, u64> = HashMap::new();
    bids.insert(0, 7);
    assert_eq!(scan_best(Side::Bid, &bids), (0, 7));
    let mut asks: HashMap<u64, u64> = HashMap::new();
    asks.insert(u64::MAX, 8);
    assert_eq!(scan_best(Side::Ask, &asks), (u64::MAX, 8));
}

#[test]
fn only_the_exact_word_deletes() {
    assert!(is_delete("delete"));
    assert!(!is_delete(""));
    assert!(!is_delete("delet"));
    assert!(!is_delete("deletes"));
    assert!(!is_delete("Delete"));
    assert!(!is_delete("new"));
    assert!(!is_delete("change"));
    assert!(!is_delete("delet\u{e9}"));
    assert!(!is_delete(" delete"));
}

#[test]
fn change_entries_are_read_by_shape() {
    assert_eq!(
        read_change(&vec![word("delete"), number(5), number(9)]),
        Instruction::Delete { price: 5 }
    );
    assert_eq!(read_change(&vec![word("delete"), number(5)]), Instruction::Delete { price: 5 });
    assert_eq!(
        read_change(&vec![word("delete"), number(5), word("x")]),
        Instruction::Delete { price: 5 }
    );
    assert_eq!(
        read_change(&vec![word("new"), number(5), number(9)]),
        Instruction::Upsert { price: 5, quantity: 9 }
    );
    assert_eq!(
        read_change(&vec![word("change"), number(5), number(9), number(1)]),
        Instruction::Upsert { price: 5, quantity: 9 }
    );
    assert_eq!(read_change(&vec![]), Instruction::Skip);
    assert_eq!(read_change(&vec![word("new")]), Instruction::Skip);
    assert_eq!(read_change(&vec![word("new"), number(5)]), Instruction::Skip);
    assert_eq!(read_change(&vec![word("new"), number(5), word("x")]), Instruction::Skip);
    assert_eq!(read_change(&vec![word("new"), word("x"), number(9)]), Instruction::Skip);
    assert_eq!(read_change(&vec![number(1), number(5), number(9)]), Instruction::Skip);
}

#[test]
fn snapshot_entries_are_read_by_shape() {
    assert_eq!(read_level(&vec![word("new"), number(5), number(9)]), Some((5, 9)));
    assert_eq!(read_level(&vec![number(0), number(5), number(9)]), Some((5, 9)));
    assert_eq!(read_level(&vec![word("delete"), number(5), number(9)]), Some((5, 9)));
    assert_eq!(read_level(&vec![]), None);
    assert_eq!(read_level(&vec![number(5), number(9)]), None);
    assert_eq!(read_level(&vec![word("new"), word("x"), number(9)]), None);
    assert_eq!(read_level(&vec![word("new"), number(5), word("x")]), None);
}

#[test]
fn load_fills_the_side_and_finds_its_best() {
    let entries = vec![
        vec![word("new"), number(30), number(3)],
        vec![word("new"), number(50), number(5)],
        vec![word("new"), number(10), number(1)],
    ];
    let (bids, best_bid) = load_entries(Side::Bid, &entries);
    assert_eq!(bids.len(), 3);
    assert_eq!(best_bid, (50, 5));
    let (asks, best_ask) = load_entries(Side::Ask, &entries);
    assert_eq!(asks.len(), 3);
    assert_eq!(best_ask, (10, 1));
}

#[test]
fn apply_rescans_after_the_cached_best_was_removed() {
    let mut levels: HashMap<u64, u64> = HashMap::new();
    levels.insert(30, 3);
    levels.insert(50, 5);
    levels.insert(10, 1);
    let entries = vec![vec![word("delete"), number(50)], vec![word("new"), number(20), number(2)]];
    let best = apply_entries(Side::Bid, &mut levels, (50, 5), &entries);
    assert_eq!(best, (30, 3));
    assert_eq!(levels.len(), 3);
    assert_eq!(levels.get(&20), Some(&2));
    assert_eq!(levels.get(&50), None);
}

#[test]
fn apply_without_entries_returns_the_cache_as_it_was() {
    let mut levels: HashMap<u64, u64> = HashMap::new();
    levels.insert(30, 3);
    let best = apply_entries(Side::Ask, &mut levels, (30, 3), &vec![]);
    assert_eq!(best, (30, 3));
    assert_eq!(levels.len(), 1);
}

#[test]
fn apply_removes_and_stores_in_order() {
    let mut levels: HashMap<u64, u64> = HashMap::new();
    levels.insert(30, 3);
    let entries = vec![
        vec![word("new"), number(40), number(4)],
        vec![word("delete"), number(40)],
        vec![word("new"), number(40), number(44)],
        vec![word("delete"), number(30)],
    ];
    let best = apply_entries(Side::Ask, &mut levels, (30, 3), &entries);
    assert_eq!(best, (40, 44));
    assert_eq!(levels.len(), 1);
    assert_eq!(levels.get(&40), Some(&44));
}
