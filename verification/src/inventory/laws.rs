//! What holds of the engine whatever it is asked: the invariants that every
//! action keeps, and the laws of writes, moves and swaps.

use vstd::prelude::*;

use super::container::ContainerState;
use super::engine::action_outcome;
use super::engine::addressable;
use super::engine::move_outcome;
use super::engine::set_outcome;
use super::engine::stack_in;
use super::error::InventoryError;
use super::notify::changes_for;
use super::notify::LoggedChange;
use super::pass::pass_log;
use super::pass::pass_state;
use super::pass::request_changes;
use super::pass::step;
use super::protocol::InventoryAction;
use super::protocol::InventoryHandle;
use super::protocol::InventoryRequest;
use super::protocol::InventoryRole;
use super::protocol::OwnerId;
use super::protocol::SlotChange;
use super::registry::without_owner;
use super::registry::ContainerRecord;
use super::registry::RegistryState;
use super::stack::ItemStack;
use super::transfer::count_of;
use super::transfer::min_int;
use super::transfer::transfer_outcome;
use super::transfer::Transfer;

verus! {

/// Every occupied slot of every container lies below its capacity.
pub open spec fn slots_in_bounds(state: RegistryState) -> bool {
    forall|h: InventoryHandle| #[trigger]
        state.contains_key(h) ==> state[h].state.well_formed()
}

/// No stored stack exceeds its maximum.
pub open spec fn stacks_within_maximum(state: RegistryState) -> bool {
    forall|h: InventoryHandle| #[trigger]
        state.contains_key(h) ==> state[h].state.stacks_within_maximum()
}

/// No slot is asked to take a stack that exceeds its maximum.
pub open spec fn payload_within_maximum(action: InventoryAction) -> bool {
    match action {
        InventoryAction::SetSlot { stack: Some(stack), .. } => stack.within_maximum(),
        _ => true,
    }
}

/// A slot is empty or holds a stack that does not exceed its maximum.
pub open spec fn slot_within_maximum(slot: Option<ItemStack>) -> bool {
    match slot {
        Some(stack) => stack.within_maximum(),
        None => true,
    }
}

/// Every stored stack holds at least one item and at most its maximum.
pub open spec fn stacks_well_formed(state: RegistryState) -> bool {
    forall|h: InventoryHandle| #[trigger]
        state.contains_key(h) ==> state[h].state.stacks_well_formed()
}

/// No slot is asked to take a stack that is empty or over its maximum.
/// Writes are raw, so this is the one thing the engine has to be given.
pub open spec fn payload_well_formed(action: InventoryAction) -> bool {
    match action {
        InventoryAction::SetSlot { stack: Some(stack), .. } => stack.well_formed(),
        _ => true,
    }
}

/// A slot is empty or holds a well-formed stack.
pub open spec fn slot_well_formed(slot: Option<ItemStack>) -> bool {
    match slot {
        Some(stack) => stack.well_formed(),
        None => true,
    }
}

/// An accepted move lets no stack grow past its maximum.
pub proof fn law_transfer_keeps_stacks_within_maximum(
    source: Option<ItemStack>,
    dest: Option<ItemStack>,
    amount: u16,
    allow_swap: bool,
)
    requires
        slot_within_maximum(source),
        slot_within_maximum(dest),
    ensures
        match transfer_outcome(source, dest, amount, allow_swap) {
            Ok(transfer) => slot_within_maximum(transfer.source) && slot_within_maximum(
                transfer.dest,
            ),
            Err(_) => true,
        },
{
}

/// An accepted move leaves well-formed stacks behind: nothing empty is
/// kept, and nothing grows past its maximum.
pub proof fn law_transfer_keeps_stacks_well_formed(
    source: Option<ItemStack>,
    dest: Option<ItemStack>,
    amount: u16,
    allow_swap: bool,
)
    requires
        slot_well_formed(source),
        slot_well_formed(dest),
    ensures
        match transfer_outcome(source, dest, amount, allow_swap) {
            Ok(transfer) => slot_well_formed(transfer.source) && slot_well_formed(transfer.dest),
            Err(_) => true,
        },
{
}

/// An accepted move neither makes nor loses items: the two slots together
/// hold afterwards what they held before. The destination never ends up
/// empty. Into an empty destination goes the amount asked for, capped by
/// what the source holds; into a destination of the same item goes that
/// amount capped once more by the room there, and the shortfall stays on
/// the source.
pub proof fn law_transfer_conserves_items(
    source: Option<ItemStack>,
    dest: Option<ItemStack>,
    amount: u16,
    allow_swap: bool,
)
    ensures
        match transfer_outcome(source, dest, amount, allow_swap) {
            Ok(transfer) => {
                &&& count_of(transfer.source) + count_of(transfer.dest) == count_of(source)
                    + count_of(dest)
                &&& transfer.dest is Some
                &&& source matches Some(src) && match dest {
                    None => {
                        &&& count_of(transfer.dest) == min_int(amount as int, src.count as int)
                        &&& transfer.dest->0.id == src.id
                        &&& transfer.dest->0.max_stack == src.max_stack
                    },
                    Some(dst) => if dst.id == src.id {
                        &&& count_of(transfer.dest) == dst.count + min_int(
                            min_int(amount as int, src.count as int),
                            dst.room(),
                        )
                        &&& transfer.dest->0.id == dst.id
                        &&& transfer.dest->0.max_stack == dst.max_stack
                    } else {
                        transfer == (Transfer { source: Some(dst), dest: Some(src) })
                    },
                }
            },
            Err(_) => true,
        },
{
}

/// Whatever is asked, the containers stay the same containers: no action
/// creates or destroys one, changes its owner, role or capacity, or
/// puts a stack outside its slots. A refused action changes nothing at all.
pub proof fn law_actions_keep_containers(state: RegistryState, action: InventoryAction)
    ensures
        step(state, action).dom() == state.dom(),
        forall|h: InventoryHandle| #[trigger]
            state.contains_key(h) ==> {
                &&& step(state, action)[h].owner == state[h].owner
                &&& step(state, action)[h].role == state[h].role
                &&& step(state, action)[h].state.capacity == state[h].state.capacity
            },
        slots_in_bounds(state) ==> slots_in_bounds(step(state, action)),
        action_outcome(state, action) is Err ==> step(state, action) == state,
{
}

/// Counts stay between zero and the maximum: where no stored stack exceeds
/// its maximum and the action does not write one that does, no stored stack
/// exceeds its maximum after the action.
pub proof fn law_actions_keep_stacks_within_maximum(state: RegistryState, action: InventoryAction)
    requires
        stacks_within_maximum(state),
        payload_within_maximum(action),
    ensures
        stacks_within_maximum(step(state, action)),
{
    if let InventoryAction::Move { from_inv, from_slot, to_inv, to_slot, amount, allow_swap } =
        action {
        if action_outcome(state, action) is Ok {
            law_transfer_keeps_stacks_within_maximum(
                stack_in(state, from_inv, from_slot),
                stack_in(state, to_inv, to_slot),
                amount,
                allow_swap,
            );
        }
    }
}

/// Stacks stay well-formed: where every stored stack holds between one
/// item and its maximum, and the action does not write a stack that breaks
/// this itself, the same holds after the action.
pub proof fn law_actions_keep_stacks_well_formed(state: RegistryState, action: InventoryAction)
    requires
        stacks_well_formed(state),
        payload_well_formed(action),
    ensures
        stacks_well_formed(step(state, action)),
{
    if let InventoryAction::Move { from_inv, from_slot, to_inv, to_slot, amount, allow_swap } =
        action {
        if action_outcome(state, action) is Ok {
            law_transfer_keeps_stacks_well_formed(
                stack_in(state, from_inv, from_slot),
                stack_in(state, to_inv, to_slot),
                amount,
                allow_swap,
            );
        }
    }
}

/// The invariants hold at every point of a pass: after any queue of
/// commands the slots are in bounds if they were; no stack exceeds its
/// maximum if none did and no command wrote one that does; and the stacks
/// are well-formed if they were and no command wrote a broken one.
pub proof fn law_pass_keeps_invariants(state: RegistryState, requests: Seq<InventoryRequest>)
    ensures
        pass_state(state, requests).dom() == state.dom(),
        slots_in_bounds(state) ==> slots_in_bounds(pass_state(state, requests)),
        stacks_within_maximum(state) && (forall|k: int|
            0 <= k < requests.len() ==> payload_within_maximum(#[trigger] requests[k].action))
            ==> stacks_within_maximum(pass_state(state, requests)),
        stacks_well_formed(state) && (forall|k: int|
            0 <= k < requests.len() ==> payload_well_formed(#[trigger] requests[k].action))
            ==> stacks_well_formed(pass_state(state, requests)),
    decreases requests.len(),
{
    if requests.len() > 0 {
        let earlier = requests.drop_last();
        law_pass_keeps_invariants(state, earlier);
        let before = pass_state(state, earlier);
        law_actions_keep_containers(before, requests.last().action);
        if stacks_within_maximum(state) && (forall|k: int|
            0 <= k < requests.len() ==> payload_within_maximum(#[trigger] requests[k].action)) {
            law_actions_keep_stacks_within_maximum(before, requests.last().action);
        }
        if stacks_well_formed(state) && (forall|k: int|
            0 <= k < requests.len() ==> payload_well_formed(#[trigger] requests[k].action)) {
            law_actions_keep_stacks_well_formed(before, requests.last().action);
        }
    }
}

/// A registry starts out within the invariants, and creating a container
/// or destroying all containers of an owner keeps it there.
pub proof fn law_lifecycle_keeps_invariants(
    state: RegistryState,
    handle: InventoryHandle,
    owner: OwnerId,
    role: InventoryRole,
    capacity: usize,
)
    ensures
        slots_in_bounds(Map::empty()),
        stacks_well_formed(Map::empty()),
        slots_in_bounds(state) ==> slots_in_bounds(
            state.insert(
                handle,
                ContainerRecord { owner, role, state: ContainerState::empty(capacity) },
            ),
        ),
        stacks_well_formed(state) ==> stacks_well_formed(
            state.insert(
                handle,
                ContainerRecord { owner, role, state: ContainerState::empty(capacity) },
            ),
        ),
        slots_in_bounds(state) ==> slots_in_bounds(without_owner(state, owner)),
        stacks_well_formed(state) ==> stacks_well_formed(without_owner(state, owner)),
{
}

/// Writing a slot twice is writing it once: the second write is accepted
/// like the first and leaves the state of the first, in which the slot
/// holds exactly what was written.
pub proof fn law_set_is_idempotent(
    state: RegistryState,
    inv: InventoryHandle,
    slot: usize,
    stack: Option<ItemStack>,
)
    ensures
        match set_outcome(state, inv, slot, stack) {
            Ok(once) => {
                &&& stack_in(once, inv, slot) == stack
                &&& set_outcome(once, inv, slot, stack) matches Ok(twice) && twice == once
            },
            Err(_) => true,
        },
{
    if let Ok(once) = set_outcome(state, inv, slot, stack) {
        let twice = set_outcome(once, inv, slot, stack)->Ok_0;
        assert(twice[inv].state =~= once[inv].state);
    }
}

/// An accepted move between two slots neither makes nor loses items: the
/// two slots together hold afterwards what they held before, and no other
/// slot of any container changes.
pub proof fn law_move_conserves_items(
    state: RegistryState,
    from_inv: InventoryHandle,
    from_slot: usize,
    to_inv: InventoryHandle,
    to_slot: usize,
    amount: u16,
    allow_swap: bool,
)
    ensures
        match move_outcome(state, from_inv, from_slot, to_inv, to_slot, amount, allow_swap) {
            Ok(after) => {
                &&& count_of(stack_in(after, from_inv, from_slot)) + count_of(
                    stack_in(after, to_inv, to_slot),
                ) == count_of(stack_in(state, from_inv, from_slot)) + count_of(
                    stack_in(state, to_inv, to_slot),
                )
                &&& forall|h: InventoryHandle, slot: usize|
                    state.contains_key(h) && (h, slot) != (from_inv, from_slot) && (h, slot) != (
                        to_inv,
                        to_slot,
                    ) ==> #[trigger] stack_in(after, h, slot) == stack_in(state, h, slot)
            },
            Err(_) => true,
        },
{
    law_transfer_conserves_items(
        stack_in(state, from_inv, from_slot),
        stack_in(state, to_inv, to_slot),
        amount,
        allow_swap,
    );
}

/// Swapping two whole stacks and swapping them back restores the
/// arrangement. This holds of two different slots that hold different
/// items, with swapping allowed and each amount covering the stack that it
/// moves. The way back may start from either of the two slots.
pub proof fn law_swap_is_its_own_inverse(
    state: RegistryState,
    a_inv: InventoryHandle,
    a_slot: usize,
    b_inv: InventoryHandle,
    b_slot: usize,
    amount_there: u16,
    amount_back: u16,
)
    requires
        addressable(state, a_inv, a_slot),
        addressable(state, b_inv, b_slot),
        stack_in(state, a_inv, a_slot) is Some,
        stack_in(state, b_inv, b_slot) is Some,
        stack_in(state, a_inv, a_slot)->0.id != stack_in(state, b_inv, b_slot)->0.id,
        1 <= stack_in(state, a_inv, a_slot)->0.count <= amount_there,
        stack_in(state, a_inv, a_slot)->0.count <= amount_back,
        1 <= stack_in(state, b_inv, b_slot)->0.count <= amount_back,
    ensures
        move_outcome(state, a_inv, a_slot, b_inv, b_slot, amount_there, true) matches Ok(swapped)
            && {
            &&& stack_in(swapped, a_inv, a_slot) == stack_in(state, b_inv, b_slot)
            &&& stack_in(swapped, b_inv, b_slot) == stack_in(state, a_inv, a_slot)
            &&& move_outcome(swapped, b_inv, b_slot, a_inv, a_slot, amount_back, true) matches Ok(
                restored,
            ) && restored == state
            &&& move_outcome(swapped, a_inv, a_slot, b_inv, b_slot, amount_back, true) matches Ok(
                restored,
            ) && restored == state
        },
{
    let swapped = move_outcome(state, a_inv, a_slot, b_inv, b_slot, amount_there, true)->Ok_0;
    let back = move_outcome(swapped, b_inv, b_slot, a_inv, a_slot, amount_back, true)->Ok_0;
    let again = move_outcome(swapped, a_inv, a_slot, b_inv, b_slot, amount_back, true)->Ok_0;
    assert(back[b_inv].state =~= state[b_inv].state);
    assert(again[a_inv].state =~= state[a_inv].state);
}

/// A move out of an empty slot is refused for that reason and changes
/// nothing, whatever else it asks for, once both slots can be addressed.
pub proof fn law_empty_source_is_refused(
    state: RegistryState,
    from_inv: InventoryHandle,
    from_slot: usize,
    to_inv: InventoryHandle,
    to_slot: usize,
    amount: u16,
    allow_swap: bool,
)
    requires
        addressable(state, from_inv, from_slot),
        addressable(state, to_inv, to_slot),
        stack_in(state, from_inv, from_slot) is None,
    ensures
        move_outcome(state, from_inv, from_slot, to_inv, to_slot, amount, allow_swap) == Err::<
            RegistryState,
            InventoryError,
        >(InventoryError::SourceSlotEmpty),
        step(
            state,
            InventoryAction::Move { from_inv, from_slot, to_inv, to_slot, amount, allow_swap },
        ) == state,
{
}

/// A move of part of a stack onto a stack of another item is refused as
/// incompatible and changes nothing, whether or not swapping is allowed:
/// only whole stacks are exchanged.
pub proof fn law_partial_swap_is_refused(
    state: RegistryState,
    from_inv: InventoryHandle,
    from_slot: usize,
    to_inv: InventoryHandle,
    to_slot: usize,
    amount: u16,
    allow_swap: bool,
)
    requires
        addressable(state, from_inv, from_slot),
        addressable(state, to_inv, to_slot),
        stack_in(state, from_inv, from_slot) is Some,
        stack_in(state, to_inv, to_slot) is Some,
        stack_in(state, from_inv, from_slot)->0.id != stack_in(state, to_inv, to_slot)->0.id,
        1 <= amount < stack_in(state, from_inv, from_slot)->0.count,
    ensures
        move_outcome(state, from_inv, from_slot, to_inv, to_slot, amount, allow_swap) == Err::<
            RegistryState,
            InventoryError,
        >(InventoryError::IncompatibleDestination),
        step(
            state,
            InventoryAction::Move { from_inv, from_slot, to_inv, to_slot, amount, allow_swap },
        ) == state,
{
}

/// What a batch of changes last says of a slot, if it says anything.
pub open spec fn last_reported(changes: Seq<SlotChange>, slot: usize) -> Option<Option<ItemStack>>
    decreases changes.len(),
{
    if changes.len() == 0 {
        None
    } else if changes.last().slot == slot {
        Some(changes.last().new_stack)
    } else {
        last_reported(changes.drop_last(), slot)
    }
}

proof fn lemma_changes_for_appended(
    log: Seq<LoggedChange>,
    more: Seq<LoggedChange>,
    inv: InventoryHandle,
)
    ensures
        changes_for(log + more, inv) == changes_for(log, inv) + changes_for(more, inv),
    decreases more.len(),
{
    if more.len() > 0 {
        assert((log + more).drop_last() =~= log + more.drop_last());
        lemma_changes_for_appended(log, more.drop_last(), inv);
    }
}

proof fn lemma_last_reported_appended(earlier: Seq<SlotChange>, later: Seq<SlotChange>, slot: usize)
    ensures
        last_reported(earlier + later, slot) == match last_reported(later, slot) {
            Some(content) => Some(content),
            None => last_reported(earlier, slot),
        },
    decreases later.len(),
{
    if later.len() > 0 {
        assert((earlier + later).drop_last() =~= earlier + later.drop_last());
        lemma_last_reported_appended(earlier, later.drop_last(), slot);
    }
}

/// What one accepted action reports of a slot is what the slot holds
/// after the action, and a slot of which it reports nothing is unchanged.
proof fn lemma_action_reports_what_it_leaves(
    state: RegistryState,
    action: InventoryAction,
    inv: InventoryHandle,
    slot: usize,
)
    requires
        state.contains_key(inv),
    ensures
        match last_reported(changes_for(request_changes(state, action), inv), slot) {
            Some(content) => content == stack_in(step(state, action), inv, slot),
            None => stack_in(step(state, action), inv, slot) == stack_in(state, inv, slot),
        },
{
    let changes = request_changes(state, action);
    let none = Seq::<LoggedChange>::empty();
    let silent = Seq::<SlotChange>::empty();
    assert(changes_for(none, inv) =~= silent);
    assert(last_reported(silent, slot) is None);
    if action_outcome(state, action) is Ok {
        match action {
            InventoryAction::SetSlot { inv: target, .. } => {
                assert(changes.drop_last() =~= none);
                if target == inv {
                    assert(changes_for(changes, inv).drop_last() =~= silent);
                }
            },
            InventoryAction::Move { from_inv, from_slot, to_inv, to_slot, amount, allow_swap } => {
                law_move_conserves_items(
                    state,
                    from_inv,
                    from_slot,
                    to_inv,
                    to_slot,
                    amount,
                    allow_swap,
                );
                let first = seq![changes[0]];
                assert(changes.drop_last() =~= first);
                assert(first.drop_last() =~= none);
                let told_first = changes_for(first, inv);
                if from_inv == inv {
                    assert(told_first.drop_last() =~= silent);
                    assert(last_reported(told_first, slot) == (if from_slot == slot {
                        Some(changes[0].1.new_stack)
                    } else {
                        None
                    }));
                }
                if to_inv == inv {
                    assert(changes_for(changes, inv).drop_last() =~= told_first);
                }
            },
        }
    }
}

/// The notifications of a pass tell where each slot ended up: the last
/// change that the batch of a container holds for a slot is what the slot
/// holds after the pass, and a slot without a change holds what it held
/// before the pass.
pub proof fn law_notifications_tell_the_outcome(
    state: RegistryState,
    requests: Seq<InventoryRequest>,
    inv: InventoryHandle,
    slot: usize,
)
    requires
        state.contains_key(inv),
    ensures
        match last_reported(changes_for(pass_log(state, requests), inv), slot) {
            Some(content) => content == stack_in(pass_state(state, requests), inv, slot),
            None => stack_in(pass_state(state, requests), inv, slot) == stack_in(state, inv, slot),
        },
    decreases requests.len(),
{
    if requests.len() > 0 {
        let earlier = requests.drop_last();
        let before = pass_state(state, earlier);
        let action = requests.last().action;
        law_notifications_tell_the_outcome(state, earlier, inv, slot);
        law_pass_keeps_invariants(state, earlier);
        lemma_action_reports_what_it_leaves(before, action, inv, slot);
        lemma_changes_for_appended(pass_log(state, earlier), request_changes(before, action), inv);
        lemma_last_reported_appended(
            changes_for(pass_log(state, earlier), inv),
            changes_for(request_changes(before, action), inv),
            slot,
        );
    }
}

} // verus!
