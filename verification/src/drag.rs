//! What a drag of an item between slots remembers: the item in hand, the
//! slot it came from and the slot under the pointer.
//!
//! Items and slots are named by plain numbers that the front end chooses.

use vstd::prelude::*;

verus! {

/// What the pointer does to a slot.
#[derive(Debug, Clone, Copy, Eq, PartialEq, Structural)]
pub enum SlotInteraction {
    Pressed,
    Hovered,
    /// The pointer is elsewhere.
    Idle,
}

/// The targets of a drag. Nothing is dragged while `item` is `None`.
#[derive(Debug, Clone, Copy, Eq, PartialEq, Structural)]
pub struct DragTargets {
    pub item: Option<u64>,
    pub origin_slot: Option<u64>,
    pub hovered_slot: Option<u64>,
}

/// Where a released item goes.
#[derive(Debug, Clone, Copy, Eq, PartialEq, Structural)]
pub struct Release {
    /// The item that was in hand.
    pub item: u64,
    /// The slot that takes it: the one under the pointer, else the one it
    /// came from.
    pub target: Option<u64>,
    /// Whether the target was under the pointer.
    pub onto_hovered: bool,
}

/// The slot under the pointer after the pointer did `interaction` to
/// `slot`: a hovered slot becomes the target, and a slot that the pointer
/// leaves or presses stops being the target if it was.
pub open spec fn hovered_after(
    hovered: Option<u64>,
    slot: u64,
    interaction: SlotInteraction,
) -> Option<u64> {
    match interaction {
        SlotInteraction::Hovered => Some(slot),
        _ => if hovered == Some(slot) {
            None
        } else {
            hovered
        },
    }
}

impl Default for DragTargets {
    /// Nothing in hand.
    fn default() -> (targets: Self)
        ensures
            targets == (DragTargets { item: None, origin_slot: None, hovered_slot: None }),
    {
        DragTargets { item: None, origin_slot: None, hovered_slot: None }
    }
}

impl DragTargets {
    /// Whether an item is in hand.
    pub fn is_dragging(&self) -> (dragging: bool)
        ensures
            dragging == (self.item is Some),
    {
        self.item.is_some()
    }

    /// Takes `item` in hand from `origin_slot`. The slot under the pointer
    /// is kept.
    pub fn pick_up(&mut self, item: u64, origin_slot: u64)
        ensures
            *final(self) == (DragTargets {
                item: Some(item),
                origin_slot: Some(origin_slot),
                hovered_slot: old(self).hovered_slot,
            }),
    {
        self.origin_slot = Some(origin_slot);
        self.item = Some(item);
    }

    /// Follows the pointer while an item is in hand; without one nothing
    /// is tracked.
    pub fn track(&mut self, slot: u64, interaction: SlotInteraction)
        ensures
            final(self).item == old(self).item,
            final(self).origin_slot == old(self).origin_slot,
            final(self).hovered_slot == (if old(self).item is Some {
                hovered_after(old(self).hovered_slot, slot, interaction)
            } else {
                old(self).hovered_slot
            }),
    {
        if self.item.is_none() {
            return ;
        }
        match interaction {
            SlotInteraction::Hovered => {
                self.hovered_slot = Some(slot);
            },
            SlotInteraction::Idle | SlotInteraction::Pressed => {
                if self.hovered_slot == Some(slot) {
                    self.hovered_slot = None;
                }
            },
        }
    }

    /// Lets go of the item in hand and says where it goes. Afterwards
    /// nothing is in hand and no slot is remembered. Without an item in
    /// hand nothing happens.
    pub fn release(&mut self) -> (released: Option<Release>)
        ensures
            match old(self).item {
                Some(item) => {
                    &&& released == Some(
                        Release {
                            item,
                            target: if old(self).hovered_slot is Some {
                                old(self).hovered_slot
                            } else {
                                old(self).origin_slot
                            },
                            onto_hovered: old(self).hovered_slot is Some,
                        },
                    )
                    &&& *final(self) == (DragTargets {
                        item: None,
                        origin_slot: None,
                        hovered_slot: None,
                    })
                },
                None => released is None && *final(self) == *old(self),
            },
    {
        let item = match self.item {
            Some(item) => item,
            None => {
                return None;
            },
        };
        let onto_hovered = self.hovered_slot.is_some();
        let target = if onto_hovered {
            self.hovered_slot
        } else {
            self.origin_slot
        };
        self.item = None;
        self.origin_slot = None;
        self.hovered_slot = None;
        Some(Release { item, target, onto_hovered })
    }
}

} // verus!
