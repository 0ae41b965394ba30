//! Why a command was refused.

use vstd::prelude::*;

verus! {

/// The rule that refused a command. Every refusal leaves all containers as
/// they were.
#[derive(Clone, Copy, Debug, PartialEq, Eq, Structural)]
pub enum InventoryError {
    /// A handle does not resolve to a live container.
    ContainerNotFound,
    /// A slot index is not below the capacity of its container.
    SlotOutOfBounds,
    /// The source slot of a move holds no stack.
    SourceSlotEmpty,
    /// The amount to move, capped by the source count, is zero.
    ZeroAmount,
    /// The destination holds the same item and has no room left.
    DestinationFull,
    /// The destination holds another item and no whole-stack swap was asked for.
    IncompatibleDestination,
}

impl InventoryError {
    /// The words that report this refusal.
    pub open spec fn text(self) -> Seq<char> {
        match self {
            InventoryError::ContainerNotFound => "Inventory entity not found"@,
            InventoryError::SlotOutOfBounds => "Slot out of bounds"@,
            InventoryError::SourceSlotEmpty => "Source slot empty"@,
            InventoryError::ZeroAmount => "Move amount is zero"@,
            InventoryError::DestinationFull => "Destination stack full"@,
            InventoryError::IncompatibleDestination =>
                "Destination occupied by different item (swap not allowed)"@,
        }
    }

    /// The words that report this refusal, as a string.
    pub fn message(&self) -> (words: String)
        ensures
            words@ == self.text(),
    {
        match self {
            InventoryError::ContainerNotFound => "Inventory entity not found".to_owned(),
            InventoryError::SlotOutOfBounds => "Slot out of bounds".to_owned(),
            InventoryError::SourceSlotEmpty => "Source slot empty".to_owned(),
            InventoryError::ZeroAmount => "Move amount is zero".to_owned(),
            InventoryError::DestinationFull => "Destination stack full".to_owned(),
            InventoryError::IncompatibleDestination =>
                "Destination occupied by different item (swap not allowed)".to_owned(),
        }
    }
}

} // verus!
