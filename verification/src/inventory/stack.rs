//! A stack: some quantity of one item, bounded by a maximum.

use vstd::prelude::*;

verus! {

/// Identity of an item kind.
pub type ItemId = u32;

/// A quantity of one item kind.
///
/// A stack stored in a container is expected to hold between one and
/// `max_stack` items; see [`ItemStack::well_formed`].
#[derive(Clone, Copy, Debug, PartialEq, Eq, Structural)]
pub struct ItemStack {
    pub id: ItemId,
    pub count: u16,
    pub max_stack: u16,
}

impl ItemStack {
    /// The count does not exceed the maximum.
    pub open spec fn within_maximum(self) -> bool {
        self.count <= self.max_stack
    }

    /// A stack that may be stored: it is not empty and does not exceed its maximum.
    pub open spec fn well_formed(self) -> bool {
        1 <= self.count <= self.max_stack
    }

    /// How many more items fit, zero when the stack is at or over its maximum.
    pub open spec fn room(self) -> int {
        if self.count <= self.max_stack {
            self.max_stack - self.count
        } else {
            0
        }
    }

    /// The same stack with another count.
    pub open spec fn with_count(self, count: int) -> ItemStack {
        ItemStack { id: self.id, count: count as u16, max_stack: self.max_stack }
    }

    pub fn new(id: ItemId, count: u16, max_stack: u16) -> (stack: Self)
        ensures
            stack == (ItemStack { id, count, max_stack }),
    {
        Self { id, count, max_stack }
    }

    pub fn space_left(&self) -> (left: u16)
        ensures
            left == self.room(),
    {
        self.max_stack.saturating_sub(self.count)
    }

    pub fn is_full(&self) -> (full: bool)
        ensures
            full == (self.count >= self.max_stack),
            full == (self.room() == 0),
    {
        self.count >= self.max_stack
    }

    pub fn is_empty(&self) -> (empty: bool)
        ensures
            empty == (self.count == 0),
    {
        self.count == 0
    }
}

} // verus!
