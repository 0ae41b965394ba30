//! The rules of a move, decided on the two stacks alone.
//!
//! A move reads the source and destination slots, decides here what both
//! slots hold afterwards, and only then writes. A refused move writes nothing.

use vstd::prelude::*;

use super::error::InventoryError;
use super::stack::ItemStack;

verus! {

/// What the source and destination slots hold after a move.
#[derive(Clone, Copy, Debug, PartialEq, Eq)]
pub struct Transfer {
    pub source: Option<ItemStack>,
    pub dest: Option<ItemStack>,
}

pub open spec fn min_int(a: int, b: int) -> int {
    if a <= b {
        a
    } else {
        b
    }
}

/// The number of items in a slot, zero for an empty slot.
pub open spec fn count_of(slot: Option<ItemStack>) -> int {
    match slot {
        Some(stack) => stack.count as int,
        None => 0,
    }
}

/// What is left of `stack` once `taken` items are gone: nothing at all when
/// none remain, so that no empty stack is ever stored.
pub open spec fn remainder(stack: ItemStack, taken: int) -> Option<ItemStack> {
    if stack.count == taken {
        None
    } else {
        Some(stack.with_count(stack.count - taken))
    }
}

/// The outcome of moving up to `amount` items from a slot holding `source`
/// to another slot holding `dest`.
///
/// - An empty source is refused.
/// - The amount is capped by the source count; moving nothing is refused.
/// - Into an empty destination goes a new stack of the moved amount with the
///   source's identity and maximum.
/// - A destination of the same item takes what fits, the rest stays on the
///   source; a destination without room refuses.
/// - A destination of another item is exchanged with the source, but only
///   when swapping is allowed and the whole source stack moves.
pub open spec fn transfer_outcome(
    source: Option<ItemStack>,
    dest: Option<ItemStack>,
    amount: u16,
    allow_swap: bool,
) -> Result<Transfer, InventoryError> {
    match source {
        None => Err(InventoryError::SourceSlotEmpty),
        Some(src) => {
            let move_n = min_int(amount as int, src.count as int);
            if move_n == 0 {
                Err(InventoryError::ZeroAmount)
            } else {
                match dest {
                    None => Ok(
                        Transfer {
                            source: remainder(src, move_n),
                            dest: Some(src.with_count(move_n)),
                        },
                    ),
                    Some(dst) => {
                        if dst.id == src.id {
                            let take = min_int(move_n, dst.room());
                            if take == 0 {
                                Err(InventoryError::DestinationFull)
                            } else {
                                Ok(
                                    Transfer {
                                        source: remainder(src, take),
                                        dest: Some(dst.with_count(dst.count + take)),
                                    },
                                )
                            }
                        } else if allow_swap && move_n == src.count {
                            Ok(Transfer { source: Some(dst), dest: Some(src) })
                        } else {
                            Err(InventoryError::IncompatibleDestination)
                        }
                    },
                }
            }
        },
    }
}

fn take_from(stack: ItemStack, taken: u16) -> (left: Option<ItemStack>)
    requires
        taken <= stack.count,
    ensures
        left == remainder(stack, taken as int),
{
    if stack.count == taken {
        None
    } else {
        Some(ItemStack::new(stack.id, stack.count - taken, stack.max_stack))
    }
}

/// Decides a move between two different slots from what they hold.
pub fn plan_transfer(
    source: Option<ItemStack>,
    dest: Option<ItemStack>,
    amount: u16,
    allow_swap: bool,
) -> (plan: Result<Transfer, InventoryError>)
    ensures
        plan == transfer_outcome(source, dest, amount, allow_swap),
{
    let src = match source {
        Some(s) => s,
        None => {
            return Err(InventoryError::SourceSlotEmpty);
        },
    };
    let move_n: u16 = if amount <= src.count {
        amount
    } else {
        src.count
    };
    if move_n == 0 {
        return Err(InventoryError::ZeroAmount);
    }
    match dest {
        None => {
            let moved = ItemStack::new(src.id, move_n, src.max_stack);
            Ok(Transfer { source: take_from(src, move_n), dest: Some(moved) })
        },
        Some(dst) => {
            if dst.id == src.id {
                let can_take: u16 = dst.space_left();
                let take: u16 = if move_n <= can_take {
                    move_n
                } else {
                    can_take
                };
                if take == 0 {
                    return Err(InventoryError::DestinationFull);
                }
                let merged = ItemStack::new(dst.id, dst.count + take, dst.max_stack);
                Ok(Transfer { source: take_from(src, take), dest: Some(merged) })
            } else if allow_swap && move_n == src.count {
                Ok(Transfer { source: Some(dst), dest: Some(src) })
            } else {
                Err(InventoryError::IncompatibleDestination)
            }
        },
    }
}

} // verus!
