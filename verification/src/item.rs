//! Item kinds and instances of them.

use vstd::prelude::*;

verus! {

/// How many items of a kind stack together unless its definition says otherwise.
pub const DEFAULT_MAX_STACK: u16 = 64;

/// How many items a fresh instance stands for.
pub const DEFAULT_QUANTITY: u16 = 1;

/// Identity of an item kind.
#[derive(Clone, Copy, PartialEq, Eq, Hash, Debug, Structural)]
pub struct ItemId(pub u32);

/// An item kind: what all items of the kind have in common.
#[derive(Clone, Debug)]
pub struct Item {
    pub id: ItemId,
    pub name: String,
    pub max_stack: u16,
    pub tags: Vec<String>,
    /// Where the icon is found; resolved elsewhere.
    pub icon_path: Option<String>,
    /// Where the model is found; resolved elsewhere.
    pub model_path: Option<String>,
}

/// Some quantity of one item kind.
#[derive(Clone, Copy, Debug, PartialEq, Eq, Structural)]
pub struct ItemInstance {
    pub item: ItemId,
    pub qty: u16,
}

/// How worn a thing is.
#[derive(Clone, Copy, Debug, PartialEq, Eq, Structural)]
pub struct Durability {
    pub current: u32,
    pub max: u32,
}

/// How many of `offered` items an instance that holds `held` takes in
/// when it may not grow past `max_stack`: what fits, and never more than
/// is offered.
pub open spec fn absorbed(held: u16, offered: u16, max_stack: u16) -> int {
    let room = if held <= max_stack {
        max_stack - held
    } else {
        0
    };
    if room <= offered {
        room
    } else {
        offered as int
    }
}

impl ItemInstance {
    /// A fresh instance of one item of the kind.
    pub fn new_from_item(item: &Item) -> (instance: Self)
        ensures
            instance == (ItemInstance { item: item.id, qty: DEFAULT_QUANTITY }),
    {
        Self { item: item.id, qty: DEFAULT_QUANTITY }
    }

    /// Instances stack when they are of the same kind.
    #[inline]
    pub fn can_stack_with(&self, other: &Self) -> (stackable: bool)
        ensures
            stackable == (self.item == other.item),
    {
        self.item == other.item
    }

    /// Merges `other` into `self` up to `max_stack` and returns how many
    /// items stay behind on `other`; zero means that all were merged.
    /// Instances of different kinds are left as they are. Nothing is made
    /// or lost: both together hold afterwards what they held before.
    pub fn absorb_from(&mut self, other: &mut Self, max_stack: u16) -> (left: u16)
        ensures
            final(self).item == old(self).item,
            final(other).item == old(other).item,
            left == final(other).qty,
            final(self).qty + final(other).qty == old(self).qty + old(other).qty,
            final(self).qty == old(self).qty + (if old(self).item == old(other).item {
                absorbed(old(self).qty, old(other).qty, max_stack)
            } else {
                0
            }),
    {
        if !self.can_stack_with(other) {
            return other.qty;
        }
        let space: u16 = max_stack.saturating_sub(self.qty);
        let take: u16 = if space <= other.qty {
            space
        } else {
            other.qty
        };
        self.qty += take;
        other.qty -= take;
        other.qty
    }
}

} // verus!
