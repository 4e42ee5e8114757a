//! Reading the entries of a message: what each one asks of a side.

use crate::defines::OrderContents;
use vstd::prelude::*;
use vstd::string::StrSliceExecFns;

verus! {

/// What one entry of a change asks of a side.
#[derive(Clone, Copy, Debug, PartialEq, Eq, Structural)]
pub enum Instruction {
    /// Remove the level at `price`.
    Delete { price: u64 },
    /// Store `quantity` at `price`, whether or not a level was there.
    Upsert { price: u64, quantity: u64 },
    /// The entry does not have the shape of an instruction: leave the side
    /// as it is.
    Skip,
}

/// The action word that removes a level. Every other word stores one.
pub open spec fn is_delete_word(action: Seq<char>) -> bool {
    action == "delete"@
}

/// The instruction that a change entry carries. An entry is an action word
/// and a price, followed by a quantity unless the word is "delete"; an entry
/// of any other shape carries none.
pub open spec fn change_of(entry: Seq<OrderContents>) -> Instruction {
    if entry.len() >= 2 {
        match (entry[0], entry[1]) {
            (OrderContents::Change(action), OrderContents::Price(price)) => {
                if is_delete_word(action@) {
                    Instruction::Delete { price }
                } else if entry.len() >= 3 {
                    match entry[2] {
                        OrderContents::Price(quantity) => Instruction::Upsert { price, quantity },
                        _ => Instruction::Skip,
                    }
                } else {
                    Instruction::Skip
                }
            },
            _ => Instruction::Skip,
        }
    } else {
        Instruction::Skip
    }
}

/// The level that a snapshot entry carries: the price at index 1 and the
/// quantity at index 2. An entry of any other shape carries none.
pub open spec fn level_of(entry: Seq<OrderContents>) -> Option<(u64, u64)> {
    if entry.len() >= 3 {
        match (entry[1], entry[2]) {
            (OrderContents::Price(price), OrderContents::Price(quantity)) => Some(
                (price, quantity),
            ),
            _ => None,
        }
    } else {
        None
    }
}

/// Whether an action word is "delete".
pub fn is_delete(action: &str) -> (b: bool)
    ensures
        b == is_delete_word(action@),
{
    proof {
        reveal_strlit("delete");
    }
    let b = action.unicode_len() == 6 && action.get_char(0) == 'd' && action.get_char(1) == 'e'
        && action.get_char(2) == 'l' && action.get_char(3) == 'e' && action.get_char(4) == 't'
        && action.get_char(5) == 'e';
    assert(b ==> action@ =~= "delete"@);
    b
}

/// Reads one entry of a change.
pub fn read_change(entry: &Vec<OrderContents>) -> (instruction: Instruction)
    ensures
        instruction == change_of(entry@),
{
    if entry.len() < 2 {
        return Instruction::Skip;
    }
    match (&entry[0], &entry[1]) {
        (OrderContents::Change(action), OrderContents::Price(price)) => {
            if is_delete(action.as_str()) {
                Instruction::Delete { price: *price }
            } else if entry.len() >= 3 {
                match &entry[2] {
                    OrderContents::Price(quantity) => Instruction::Upsert {
                        price: *price,
                        quantity: *quantity,
                    },
                    _ => Instruction::Skip,
                }
            } else {
                Instruction::Skip
            }
        },
        _ => Instruction::Skip,
    }
}

/// Reads one entry of a snapshot.
pub fn read_level(entry: &Vec<OrderContents>) -> (level: Option<(u64, u64)>)
    ensures
        level == level_of(entry@),
{
    if entry.len() < 3 {
        return None;
    }
    match (&entry[1], &entry[2]) {
        (OrderContents::Price(price), OrderContents::Price(quantity)) => Some(
            (*price, *quantity),
        ),
        _ => None,
    }
}

} // verus!
