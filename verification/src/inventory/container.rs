//! A container: a fixed number of slots, each holding at most one stack.

use std::collections::hash_map::Entry;
use std::collections::HashMap;
use vstd::prelude::*;
use vstd::std_specs::hash::*;

use super::stack::ItemStack;

verus! {

broadcast use vstd::std_specs::hash::group_hash_axioms;

/// What a container holds, as mathematics: its capacity and the stack in
/// each occupied slot. A slot without an entry is empty.
#[verifier::ext_equal]
pub struct ContainerState {
    pub capacity: usize,
    pub slots: Map<usize, ItemStack>,
}

impl ContainerState {
    /// A container of the given capacity with every slot empty.
    pub open spec fn empty(capacity: usize) -> ContainerState {
        ContainerState { capacity, slots: Map::empty() }
    }

    pub open spec fn in_bounds(self, slot: usize) -> bool {
        slot < self.capacity
    }

    /// The stack in `slot`, or `None` for an empty slot.
    pub open spec fn stack_at(self, slot: usize) -> Option<ItemStack> {
        if self.slots.contains_key(slot) {
            Some(self.slots[slot])
        } else {
            None
        }
    }

    /// The container after `slot` was overwritten with `stack`.
    pub open spec fn write(self, slot: usize, stack: Option<ItemStack>) -> ContainerState {
        ContainerState {
            capacity: self.capacity,
            slots: match stack {
                Some(s) => self.slots.insert(slot, s),
                None => self.slots.remove(slot),
            },
        }
    }

    /// Every occupied slot lies below the capacity.
    pub open spec fn well_formed(self) -> bool {
        forall|slot: usize| #[trigger] self.slots.contains_key(slot) ==> slot < self.capacity
    }

    /// No stored stack exceeds its maximum.
    pub open spec fn stacks_within_maximum(self) -> bool {
        forall|slot: usize| #[trigger]
            self.slots.contains_key(slot) ==> self.slots[slot].within_maximum()
    }

    /// Every stored stack holds at least one item and at most its maximum.
    pub open spec fn stacks_well_formed(self) -> bool {
        forall|slot: usize| #[trigger]
            self.slots.contains_key(slot) ==> self.slots[slot].well_formed()
    }
}

/// A fixed-capacity, sparsely populated set of slots.
#[derive(Debug)]
pub struct Inventory {
    pub capacity: usize,
    pub slots: HashMap<usize, ItemStack>,
}

impl View for Inventory {
    type V = ContainerState;

    open spec fn view(&self) -> ContainerState {
        ContainerState { capacity: self.capacity, slots: self.slots@ }
    }
}

impl Inventory {
    pub fn new(capacity: usize) -> (inv: Self)
        ensures
            inv@ == ContainerState::empty(capacity),
            inv@.well_formed(),
    {
        Self { capacity, slots: HashMap::new() }
    }

    /// Reads a slot. A slot that holds nothing reads as `None`; in a
    /// well-formed container that includes every slot at or past the capacity.
    pub fn get(&self, i: usize) -> (found: Option<&ItemStack>)
        ensures
            match found {
                Some(stack) => self@.stack_at(i) == Some(*stack),
                None => self@.stack_at(i) is None,
            },
            self@.well_formed() && !self@.in_bounds(i) ==> found is None,
    {
        self.slots.get(&i)
    }

    /// Hands out the stack in a slot for modification in place. The
    /// container afterwards holds whatever the caller left in the stack.
    pub fn get_mut(&mut self, i: usize) -> (found: Option<&mut ItemStack>)
        ensures
            match found {
                Some(stack) => old(self)@.stack_at(i) == Some(*stack) && final(self)@ == old(
                    self,
                )@.write(i, Some(*final(stack))),
                None => old(self)@.stack_at(i) is None && final(self)@ == old(self)@,
            },
            old(self)@.well_formed() ==> final(self)@.well_formed(),
    {
        match self.slots.entry(i) {
            Entry::Occupied(occupied) => Some(occupied.into_mut()),
            Entry::Vacant(_) => None,
        }
    }

    /// Overwrites a slot with `stack`, or clears it.
    pub fn set(&mut self, i: usize, stack: Option<ItemStack>)
        requires
            old(self)@.in_bounds(i),
        ensures
            final(self)@ == old(self)@.write(i, stack),
            old(self)@.well_formed() ==> final(self)@.well_formed(),
    {
        if let Some(s) = stack {
            self.slots.insert(i, s);
        } else {
            self.slots.remove(&i);
        }
    }

    pub fn in_bounds(&self, i: usize) -> (inside: bool)
        ensures
            inside == self@.in_bounds(i),
    {
        i < self.capacity
    }
}

} // verus!
