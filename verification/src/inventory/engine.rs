//! The apply engine: the one place where commands turn into changes.
//!
//! Every action is checked in full against the state it finds and only then
//! written, so a refused action leaves every container untouched.

use vstd::prelude::*;

use super::error::InventoryError;
use super::notify::LoggedChange;
use super::protocol::InventoryAction;
use super::protocol::InventoryHandle;
use super::protocol::SlotChange;
use super::registry::InventoryRegistry;
use super::registry::RegistryState;
use super::stack::ItemStack;
use super::transfer::plan_transfer;
use super::transfer::transfer_outcome;

verus! {

/// What a slot of a live container holds.
pub open spec fn stack_in(state: RegistryState, inv: InventoryHandle, slot: usize) -> Option<
    ItemStack,
> {
    state[inv].state.stack_at(slot)
}

/// The state after one slot of a live container was overwritten.
pub open spec fn write_at(
    state: RegistryState,
    inv: InventoryHandle,
    slot: usize,
    stack: Option<ItemStack>,
) -> RegistryState {
    state.insert(inv, state[inv].write(slot, stack))
}

/// Whether `slot` addresses a slot of the live container `inv`.
pub open spec fn addressable(state: RegistryState, inv: InventoryHandle, slot: usize) -> bool {
    state.contains_key(inv) && state[inv].state.in_bounds(slot)
}

/// The outcome of overwriting a slot: refused when the handle resolves to
/// nothing or the slot lies outside the container, and otherwise a plain
/// write of whatever was given.
pub open spec fn set_outcome(
    state: RegistryState,
    inv: InventoryHandle,
    slot: usize,
    stack: Option<ItemStack>,
) -> Result<RegistryState, InventoryError> {
    if !state.contains_key(inv) {
        Err(InventoryError::ContainerNotFound)
    } else if !state[inv].state.in_bounds(slot) {
        Err(InventoryError::SlotOutOfBounds)
    } else {
        Ok(write_at(state, inv, slot, stack))
    }
}

/// The outcome of a move.
///
/// Both handles must resolve and both slots must lie inside their
/// containers. The two slots are then read and the move is decided by
/// [`transfer_outcome`]. Source and destination may be slots of one
/// container. Where they are the very same slot, the slot is its own
/// destination: the move is refused or accepted by the same rules, and an
/// accepted one leaves the slot as it was, since what leaves it arrives again.
pub open spec fn move_outcome(
    state: RegistryState,
    from_inv: InventoryHandle,
    from_slot: usize,
    to_inv: InventoryHandle,
    to_slot: usize,
    amount: u16,
    allow_swap: bool,
) -> Result<RegistryState, InventoryError> {
    if !state.contains_key(from_inv) || !state.contains_key(to_inv) {
        Err(InventoryError::ContainerNotFound)
    } else if !state[from_inv].state.in_bounds(from_slot) || !state[to_inv].state.in_bounds(
        to_slot,
    ) {
        Err(InventoryError::SlotOutOfBounds)
    } else {
        match transfer_outcome(
            stack_in(state, from_inv, from_slot),
            stack_in(state, to_inv, to_slot),
            amount,
            allow_swap,
        ) {
            Err(refusal) => Err(refusal),
            Ok(transfer) => if from_inv == to_inv && from_slot == to_slot {
                Ok(state)
            } else {
                Ok(
                    write_at(
                        write_at(state, from_inv, from_slot, transfer.source),
                        to_inv,
                        to_slot,
                        transfer.dest,
                    ),
                )
            },
        }
    }
}

/// The outcome of any action.
pub open spec fn action_outcome(state: RegistryState, action: InventoryAction) -> Result<
    RegistryState,
    InventoryError,
> {
    match action {
        InventoryAction::SetSlot { inv, slot, stack } => set_outcome(state, inv, slot, stack),
        InventoryAction::Move { from_inv, from_slot, to_inv, to_slot, amount, allow_swap } =>
            move_outcome(state, from_inv, from_slot, to_inv, to_slot, amount, allow_swap),
    }
}

/// The slots that an accepted action reports, each with what it holds in
/// the state `after` the action: one slot for a write, source then
/// destination for a move.
pub open spec fn action_changes(after: RegistryState, action: InventoryAction) -> Seq<
    (InventoryHandle, SlotChange),
> {
    match action {
        InventoryAction::SetSlot { inv, slot, stack } => seq![
            (inv, SlotChange { slot, new_stack: stack_in(after, inv, slot) }),
        ],
        InventoryAction::Move { from_inv, from_slot, to_inv, to_slot, amount, allow_swap } => seq![
            (from_inv, SlotChange { slot: from_slot, new_stack: stack_in(after, from_inv, from_slot) }),
            (to_inv, SlotChange { slot: to_slot, new_stack: stack_in(after, to_inv, to_slot) }),
        ],
    }
}

impl InventoryRegistry {
    /// Whether `slot` addresses a slot of a live container.
    pub fn in_bounds(&self, inv: InventoryHandle, slot: usize) -> (inside: bool)
        ensures
            inside == addressable(self@, inv, slot),
    {
        match self.get(inv) {
            Some(container) => container.in_bounds(slot),
            None => false,
        }
    }

    /// Overwrites a slot with `stack`, or clears it. Returns the change to
    /// report.
    pub fn apply_set(&mut self, inv: InventoryHandle, slot: usize, stack: Option<ItemStack>) -> (done:
        Result<SlotChange, InventoryError>)
        ensures
            final(self).spent() == old(self).spent(),
            match set_outcome(old(self)@, inv, slot, stack) {
                Ok(after) => final(self)@ == after && done == Ok::<SlotChange, InventoryError>(
                    SlotChange { slot, new_stack: stack },
                ),
                Err(refusal) => final(self)@ == old(self)@ && done == Err::<
                    SlotChange,
                    InventoryError,
                >(refusal),
            },
    {
        if !self.contains(inv) {
            return Err(InventoryError::ContainerNotFound);
        }
        if !self.in_bounds(inv, slot) {
            return Err(InventoryError::SlotOutOfBounds);
        }
        self.write_slot(inv, slot, stack);
        Ok(SlotChange { slot, new_stack: stack })
    }

    /// Moves up to `amount` items from one slot to another. Returns the
    /// changes to report: the source slot, then the destination slot, each
    /// with what it holds afterwards.
    pub fn apply_move(
        &mut self,
        from_inv: InventoryHandle,
        from_slot: usize,
        to_inv: InventoryHandle,
        to_slot: usize,
        amount: u16,
        allow_swap: bool,
    ) -> (done: Result<(SlotChange, SlotChange), InventoryError>)
        ensures
            final(self).spent() == old(self).spent(),
            match move_outcome(
                old(self)@,
                from_inv,
                from_slot,
                to_inv,
                to_slot,
                amount,
                allow_swap,
            ) {
                Ok(after) => final(self)@ == after && done == Ok::<
                    (SlotChange, SlotChange),
                    InventoryError,
                >(
                    (
                        SlotChange {
                            slot: from_slot,
                            new_stack: stack_in(after, from_inv, from_slot),
                        },
                        SlotChange { slot: to_slot, new_stack: stack_in(after, to_inv, to_slot) },
                    ),
                ),
                Err(refusal) => final(self)@ == old(self)@ && done == Err::<
                    (SlotChange, SlotChange),
                    InventoryError,
                >(refusal),
            },
    {
        if !self.contains(from_inv) || !self.contains(to_inv) {
            return Err(InventoryError::ContainerNotFound);
        }
        if !self.in_bounds(from_inv, from_slot) || !self.in_bounds(to_inv, to_slot) {
            return Err(InventoryError::SlotOutOfBounds);
        }
        let source = self.stack_at(from_inv, from_slot);
        let dest = self.stack_at(to_inv, to_slot);
        let transfer = match plan_transfer(source, dest, amount, allow_swap) {
            Ok(transfer) => transfer,
            Err(refusal) => {
                return Err(refusal);
            },
        };
        if from_inv == to_inv && from_slot == to_slot {
            Ok(
                (
                    SlotChange { slot: from_slot, new_stack: source },
                    SlotChange { slot: to_slot, new_stack: source },
                ),
            )
        } else {
            self.write_slot(from_inv, from_slot, transfer.source);
            self.write_slot(to_inv, to_slot, transfer.dest);
            Ok(
                (
                    SlotChange { slot: from_slot, new_stack: transfer.source },
                    SlotChange { slot: to_slot, new_stack: transfer.dest },
                ),
            )
        }
    }

    /// Carries out one action, or refuses it and changes nothing. Returns
    /// the changes to report, each with what its slot holds afterwards.
    pub fn apply_action(&mut self, action: &InventoryAction) -> (done: Result<
        Vec<LoggedChange>,
        InventoryError,
    >)
        ensures
            final(self).spent() == old(self).spent(),
            match action_outcome(old(self)@, *action) {
                Ok(after) => final(self)@ == after && (done matches Ok(changes) && changes@
                    == action_changes(after, *action)),
                Err(refusal) => final(self)@ == old(self)@ && (done matches Err(reported)
                    && reported == refusal),
            },
    {
        match action {
            InventoryAction::SetSlot { inv, slot, stack } => {
                match self.apply_set(*inv, *slot, *stack) {
                    Ok(change) => {
                        let mut changes: Vec<LoggedChange> = Vec::new();
                        changes.push((*inv, change));
                        Ok(changes)
                    },
                    Err(refusal) => Err(refusal),
                }
            },
            InventoryAction::Move { from_inv, from_slot, to_inv, to_slot, amount, allow_swap } => {
                match self.apply_move(
                    *from_inv,
                    *from_slot,
                    *to_inv,
                    *to_slot,
                    *amount,
                    *allow_swap,
                ) {
                    Ok(pair) => {
                        let mut changes: Vec<LoggedChange> = Vec::new();
                        changes.push((*from_inv, pair.0));
                        changes.push((*to_inv, pair.1));
                        Ok(changes)
                    },
                    Err(refusal) => Err(refusal),
                }
            },
        }
    }
}

} // verus!
