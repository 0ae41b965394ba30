//! The registry: every live container, who owns it and what it is for.
//!
//! Containers are reached through handles only. The registry is an arena:
//! a handle names a place and the generation of that place, and a place that
//! is given to a new container moves on to its next generation, so that a
//! handle kept from an earlier container resolves to nothing.

use vstd::prelude::*;

use super::container::ContainerState;
use super::container::Inventory;
use super::protocol::InventoryHandle;
use super::protocol::InventoryRole;
use super::protocol::OwnerId;
use super::stack::ItemStack;

verus! {

/// One live container as mathematics: its owner, its role and what it holds.
#[verifier::ext_equal]
pub struct ContainerRecord {
    pub owner: OwnerId,
    pub role: InventoryRole,
    pub state: ContainerState,
}

impl ContainerRecord {
    /// The record after a slot of its container was overwritten.
    pub open spec fn write(self, slot: usize, stack: Option<ItemStack>) -> ContainerRecord {
        ContainerRecord { owner: self.owner, role: self.role, state: self.state.write(slot, stack) }
    }
}

/// The live containers, by handle.
pub type RegistryState = Map<InventoryHandle, ContainerRecord>;

/// The handles of the live containers of `owner`.
pub open spec fn owned_by(state: RegistryState, owner: OwnerId) -> Set<InventoryHandle> {
    Set::new(|h: InventoryHandle| state.contains_key(h) && state[h].owner == owner)
}

/// What is left once every container of `owner` is destroyed.
pub open spec fn without_owner(state: RegistryState, owner: OwnerId) -> RegistryState {
    Map::new(
        |h: InventoryHandle| state.contains_key(h) && state[h].owner != owner,
        |h: InventoryHandle| state[h],
    )
}

struct ArenaEntry {
    generation: u32,
    owner: OwnerId,
    role: InventoryRole,
    inventory: Option<Inventory>,
}

/// Owns every container and relates each to its owner.
pub struct InventoryRegistry {
    entries: Vec<ArenaEntry>,
}

impl View for InventoryRegistry {
    type V = RegistryState;

    closed spec fn view(&self) -> RegistryState {
        Map::new(|h: InventoryHandle| self.live(h), |h: InventoryHandle| self.record(h))
    }
}

impl InventoryRegistry {
    spec fn live(&self, h: InventoryHandle) -> bool {
        &&& h.index < self.entries@.len()
        &&& self.entries@[h.index as int].inventory is Some
        &&& self.entries@[h.index as int].generation == h.generation
    }

    spec fn record(&self, h: InventoryHandle) -> ContainerRecord {
        let entry = self.entries@[h.index as int];
        ContainerRecord { owner: entry.owner, role: entry.role, state: entry.inventory->0@ }
    }

    /// The handles that are spent: each named a container that has since
    /// been destroyed. A spent handle names no container, and no container
    /// will ever be given it: every operation keeps what is spent, and a new
    /// container gets a handle that is not.
    pub closed spec fn spent(&self) -> Set<InventoryHandle> {
        Set::new(
            |h: InventoryHandle|
                h.index < self.entries@.len() && (h.generation
                    < self.entries@[h.index as int].generation || (h.generation
                    == self.entries@[h.index as int].generation
                    && self.entries@[h.index as int].inventory is None)),
        )
    }

    /// No handle is live and spent at once.
    pub proof fn lemma_spent_is_not_live(&self, handle: InventoryHandle)
        ensures
            !(self@.contains_key(handle) && self.spent().contains(handle)),
    {
    }

    /// A registry without containers, in which no handle is spent.
    pub fn new() -> (registry: Self)
        ensures
            registry@ == Map::<InventoryHandle, ContainerRecord>::empty(),
            registry.spent() == Set::<InventoryHandle>::empty(),
    {
        let registry = Self { entries: Vec::new() };
        registry
    }

    /// Whether `handle` names a live container.
    pub fn contains(&self, handle: InventoryHandle) -> (live: bool)
        ensures
            live == self@.contains_key(handle),
    {
        handle.index < self.entries.len() && self.entries[handle.index].inventory.is_some()
            && self.entries[handle.index].generation == handle.generation
    }

    /// Resolves a handle to its container.
    pub fn get(&self, handle: InventoryHandle) -> (found: Option<&Inventory>)
        ensures
            match found {
                Some(inv) => self@.contains_key(handle) && inv@ == self@[handle].state,
                None => !self@.contains_key(handle),
            },
    {
        if handle.index < self.entries.len() && self.entries[handle.index].generation
            == handle.generation {
            self.entries[handle.index].inventory.as_ref()
        } else {
            None
        }
    }

    /// The place that the next container takes: the first vacant place that
    /// still has a generation to move on to, or a new place at the end.
    fn next_place(&self) -> (place: usize)
        ensures
            place <= self.entries@.len(),
            place < self.entries@.len() ==> self.entries@[place as int].inventory is None
                && self.entries@[place as int].generation < u32::MAX,
    {
        let mut i: usize = 0;
        while i < self.entries.len()
            invariant
                i <= self.entries@.len(),
            decreases self.entries@.len() - i,
        {
            if self.entries[i].inventory.is_none() && self.entries[i].generation < u32::MAX {
                return i;
            }
            i += 1;
        }
        i
    }

    /// Creates an empty container of the given capacity for `owner`.
    ///
    /// The handle returned is new: it names no container before the call
    /// and is not spent. No other container changes, and what was spent
    /// stays spent.
    pub fn create_container(&mut self, owner: OwnerId, capacity: usize, role: InventoryRole) -> (handle:
        InventoryHandle)
        ensures
            !old(self)@.contains_key(handle),
            !old(self).spent().contains(handle),
            final(self)@ == old(self)@.insert(
                handle,
                ContainerRecord { owner, role, state: ContainerState::empty(capacity) },
            ),
            final(self).spent() == old(self).spent(),
    {
        let place = self.next_place();
        let handle = if place < self.entries.len() {
            let generation: u32 = self.entries[place].generation + 1;
            self.entries.set(
                place,
                ArenaEntry { generation, owner, role, inventory: Some(Inventory::new(capacity)) },
            );
            InventoryHandle { index: place, generation }
        } else {
            self.entries.push(
                ArenaEntry { generation: 0, owner, role, inventory: Some(Inventory::new(capacity)) },
            );
            InventoryHandle { index: place, generation: 0 }
        };
        handle
    }

    /// The owner of a live container.
    pub fn owner_of(&self, handle: InventoryHandle) -> (owner: Option<OwnerId>)
        ensures
            owner == (if self@.contains_key(handle) {
                Some(self@[handle].owner)
            } else {
                None
            }),
    {
        if self.contains(handle) {
            Some(self.entries[handle.index].owner)
        } else {
            None
        }
    }

    /// The role of a live container.
    pub fn role_of(&self, handle: InventoryHandle) -> (role: Option<InventoryRole>)
        ensures
            role == (if self@.contains_key(handle) {
                Some(self@[handle].role)
            } else {
                None
            }),
    {
        if self.contains(handle) {
            Some(self.entries[handle.index].role)
        } else {
            None
        }
    }

    /// The handles of the live containers of `owner`, each once, in the
    /// order of their places in the registry.
    pub fn containers_of(&self, owner: OwnerId) -> (handles: Vec<InventoryHandle>)
        ensures
            forall|h: InventoryHandle| handles@.contains(h) <==> owned_by(self@, owner).contains(h),
            forall|i: int, j: int|
                0 <= i < j < handles@.len() ==> handles@[i].index < handles@[j].index,
    {
        let mut handles: Vec<InventoryHandle> = Vec::new();
        let mut i: usize = 0;
        while i < self.entries.len()
            invariant
                i <= self.entries@.len(),
                forall|h: InventoryHandle|
                    handles@.contains(h) <==> (owned_by(self@, owner).contains(h) && h.index < i),
                forall|a: int, b: int|
                    0 <= a < b < handles@.len() ==> handles@[a].index < handles@[b].index,
                forall|a: int| 0 <= a < handles@.len() ==> handles@[a].index < i,
            decreases self.entries@.len() - i,
        {
            let ghost before = handles@;
            if self.entries[i].inventory.is_some() && self.entries[i].owner == owner {
                let handle = InventoryHandle { index: i, generation: self.entries[i].generation };
                handles.push(handle);
                assert(handles@[before.len() as int] == handle);
                assert forall|h: InventoryHandle|
                    handles@.contains(h) <==> (owned_by(self@, owner).contains(h) && h.index < i
                        + 1) by {
                    if handles@.contains(h) {
                        let k = choose|k: int| 0 <= k < handles@.len() && handles@[k] == h;
                        if k < before.len() {
                            assert(before.contains(h));
                        }
                    }
                    if owned_by(self@, owner).contains(h) && h.index < i + 1 {
                        if h.index < i {
                            assert(before.contains(h));
                            let k = choose|k: int| 0 <= k < before.len() && before[k] == h;
                            assert(handles@[k] == h);
                        }
                    }
                }
            }
            i += 1;
        }
        handles
    }

    /// Destroys every container of `owner` and returns their handles, each
    /// once, in the order of their places in the registry. The containers of
    /// other owners stay as they are. The handles returned are spent from
    /// now on, with all that were spent before.
    pub fn destroy_owner(&mut self, owner: OwnerId) -> (destroyed: Vec<InventoryHandle>)
        ensures
            final(self)@ == without_owner(old(self)@, owner),
            forall|h: InventoryHandle|
                destroyed@.contains(h) <==> owned_by(old(self)@, owner).contains(h),
            forall|i: int, j: int|
                0 <= i < j < destroyed@.len() ==> destroyed@[i].index < destroyed@[j].index,
            final(self).spent() == old(self).spent().union(owned_by(old(self)@, owner)),
    {
        let destroyed = self.containers_of(owner);
        let mut i: usize = 0;
        while i < self.entries.len()
            invariant
                i <= self.entries@.len(),
                self.entries@.len() == old(self).entries@.len(),
                forall|k: int|
                    i <= k < self.entries@.len() ==> self.entries@[k] == old(self).entries@[k],
                forall|k: int|
                    0 <= k < i ==> self.entries@[k].generation == old(self).entries@[k].generation,
                forall|k: int|
                    0 <= k < i && !(old(self).entries@[k].inventory is Some && old(
                        self,
                    ).entries@[k].owner == owner) ==> self.entries@[k] == old(self).entries@[k],
                forall|k: int|
                    0 <= k < i && old(self).entries@[k].owner == owner
                        ==> self.entries@[k].inventory is None,
            decreases self.entries@.len() - i,
        {
            if self.entries[i].inventory.is_some() && self.entries[i].owner == owner {
                let generation: u32 = self.entries[i].generation;
                let role = self.entries[i].role;
                self.entries.set(i, ArenaEntry { generation, owner, role, inventory: None });
            }
            i += 1;
        }
        destroyed
    }

    /// What a slot of a container holds: nothing where the slot is empty
    /// or the handle names no container.
    pub fn stack_at(&self, handle: InventoryHandle, slot: usize) -> (found: Option<ItemStack>)
        ensures
            found == (if self@.contains_key(handle) {
                self@[handle].state.stack_at(slot)
            } else {
                None
            }),
    {
        match self.get(handle) {
            Some(inv) => match inv.get(slot) {
                Some(stack) => Some(*stack),
                None => None,
            },
            None => None,
        }
    }

    /// The capacity of a live container.
    pub fn capacity_of(&self, handle: InventoryHandle) -> (capacity: Option<usize>)
        ensures
            capacity == (if self@.contains_key(handle) {
                Some(self@[handle].state.capacity)
            } else {
                None
            }),
    {
        match self.get(handle) {
            Some(inv) => Some(inv.capacity),
            None => None,
        }
    }

    /// Overwrites one slot of a live container; the single place where the
    /// content of a registered container changes.
    pub(crate) fn write_slot(&mut self, handle: InventoryHandle, slot: usize, stack: Option<ItemStack>)
        requires
            old(self)@.contains_key(handle),
            old(self)@[handle].state.in_bounds(slot),
        ensures
            final(self)@ == old(self)@.insert(handle, old(self)@[handle].write(slot, stack)),
            final(self).spent() == old(self).spent(),
    {
        let entry = &mut self.entries[handle.index];
        match &mut entry.inventory {
            Some(inv) => {
                inv.set(slot, stack);
            },
            None => {},
        }
    }
}

/// Creates general storage of the given capacity for `owner`.
pub fn build_inventory(registry: &mut InventoryRegistry, owner: OwnerId, capacity: usize) -> (handle:
    InventoryHandle)
    ensures
        !old(registry)@.contains_key(handle),
        !old(registry).spent().contains(handle),
        final(registry)@ == old(registry)@.insert(
            handle,
            ContainerRecord {
                owner,
                role: InventoryRole::Storage,
                state: ContainerState::empty(capacity),
            },
        ),
        final(registry).spent() == old(registry).spent(),
{
    registry.create_container(owner, capacity, InventoryRole::Storage)
}

} // verus!
