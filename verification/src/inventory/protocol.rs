//! The values that cross the boundary of the engine: handles, commands,
//! results and change notifications.

use vstd::prelude::*;

use super::stack::ItemStack;

verus! {

/// Names a container for as long as it lives. A handle is made of the place
/// of the container in the registry and of the generation of that place, so
/// that the handle of a destroyed container never names its successor.
#[derive(Clone, Copy, Debug, PartialEq, Eq, Hash, Structural)]
pub struct InventoryHandle {
    pub index: usize,
    pub generation: u32,
}

/// Names the owner of containers: a player, a chest, a machine.
#[derive(Clone, Copy, Debug, PartialEq, Eq, Hash, Structural)]
pub struct OwnerId(pub u64);

/// What a container is for, so that one owner can hold several.
#[derive(Clone, Copy, Debug, PartialEq, Eq, Hash, Structural)]
pub enum InventoryRole {
    /// General storage.
    Storage,
    /// Feeds a machine.
    Input,
    /// Receives what a machine makes.
    Output,
    /// What lies here also plays out its effects.
    Equip,
}

/// A mutation asked of the engine.
#[derive(Clone, Copy, Debug, PartialEq, Eq)]
pub enum InventoryAction {
    /// Put exactly this stack into the slot, or clear the slot.
    SetSlot { inv: InventoryHandle, slot: usize, stack: Option<ItemStack> },
    /// Move items between slots, possibly across containers.
    Move {
        from_inv: InventoryHandle,
        from_slot: usize,
        to_inv: InventoryHandle,
        to_slot: usize,
        /// How many to move; capped by what the source holds.
        amount: u16,
        /// Whether a destination holding another item is exchanged with
        /// the source instead of refusing the move.
        allow_swap: bool,
    },
}

/// A command: an action under an id chosen by the sender, which comes back
/// on the result. The id is not interpreted; zero is customary for senders
/// that do not wait for the result.
#[derive(Clone, Copy, Debug, PartialEq, Eq)]
pub struct InventoryRequest {
    pub id: u64,
    pub action: InventoryAction,
}

/// The answer to one command.
#[derive(Clone, Debug, PartialEq, Eq)]
pub struct InventoryResult {
    pub id: u64,
    pub ok: bool,
    pub details: Option<String>,
}

/// The new content of one slot.
#[derive(Clone, Copy, Debug, PartialEq, Eq)]
pub struct SlotChange {
    pub slot: usize,
    pub new_stack: Option<ItemStack>,
}

/// The slots of one container that changed, in the order of the changes.
#[derive(Clone, Debug, PartialEq, Eq)]
pub struct InventoryChanged {
    pub inv: InventoryHandle,
    pub changes: Vec<SlotChange>,
}

/// An [`InventoryResult`] as mathematics.
pub struct ResultView {
    pub id: u64,
    pub ok: bool,
    pub details: Option<Seq<char>>,
}

impl View for InventoryResult {
    type V = ResultView;

    open spec fn view(&self) -> ResultView {
        ResultView {
            id: self.id,
            ok: self.ok,
            details: match self.details {
                Some(text) => Some(text@),
                None => None,
            },
        }
    }
}

/// An [`InventoryChanged`] as mathematics.
pub struct ChangeBatch {
    pub inv: InventoryHandle,
    pub changes: Seq<SlotChange>,
}

impl View for InventoryChanged {
    type V = ChangeBatch;

    open spec fn view(&self) -> ChangeBatch {
        ChangeBatch { inv: self.inv, changes: self.changes@ }
    }
}

} // verus!
