use feldspar::inventory::InventoryAction;
use feldspar::inventory::InventoryError;
use feldspar::inventory::InventoryHandle;
use feldspar::inventory::InventoryRegistry;
use feldspar::inventory::InventoryRole;
use feldspar::inventory::ItemStack;
use feldspar::inventory::OwnerId;
use feldspar::inventory::SlotChange;

const WOOD: u32 = 1;
const STONE: u32 = 2;
const OWNER: OwnerId = OwnerId(7);

fn registry_with(capacities: &[usize]) -> (InventoryRegistry, Vec<InventoryHandle>) {
    let mut registry = InventoryRegistry::new();
    let mut handles = Vec::new();
    for capacity in capacities {
        handles.push(registry.create_container(OWNER, *capacity, InventoryRole::Storage));
    }
    (registry, handles)
}

fn snapshot(registry: &InventoryRegistry, handles: &[InventoryHandle]) -> Vec<Vec<Option<ItemStack>>> {
    handles
        .iter()
        .map(|h| (0..registry.capacity_of(*h).unwrap_or(0)).map(|slot| registry.stack_at(*h, slot)).collect())
        .collect()
}

#[test]
fn set_on_a_missing_container_is_refused() {
    let (mut registry, _) = registry_with(&[]);
    let missing = InventoryHandle { index: 4, generation: 0 };
    assert_eq!(registry.apply_set(missing, 0, None), Err(InventoryError::ContainerNotFound));
}

#[test]
fn set_out_of_bounds_is_refused() {
    let (mut registry, handles) = registry_with(&[10]);
    let wood = Some(ItemStack::new(WOOD, 1, 64));
    assert_eq!(registry.apply_set(handles[0], 10, wood), Err(InventoryError::SlotOutOfBounds));
    assert_eq!(registry.apply_set(handles[0], usize::MAX, wood), Err(InventoryError::SlotOutOfBounds));
    assert_eq!(snapshot(&registry, &handles), vec![vec![None; 10]]);
}

#[test]
fn set_overwrites_whatever_was_there() {
    let (mut registry, handles) = registry_with(&[3]);
    let a = handles[0];
    let wood = Some(ItemStack::new(WOOD, 40, 64));
    let stone = Some(ItemStack::new(STONE, 2, 16));
    assert_eq!(registry.apply_set(a, 1, wood), Ok(SlotChange { slot: 1, new_stack: wood }));
    assert_eq!(registry.stack_at(a, 1), wood);
    assert_eq!(registry.apply_set(a, 1, stone), Ok(SlotChange { slot: 1, new_stack: stone }));
    assert_eq!(registry.stack_at(a, 1), stone);
    assert_eq!(registry.apply_set(a, 1, None), Ok(SlotChange { slot: 1, new_stack: None }));
    assert_eq!(registry.stack_at(a, 1), None);
}

#[test]
fn set_twice_is_set_once() {
    let (mut registry, handles) = registry_with(&[3, 3]);
    let wood = Some(ItemStack::new(WOOD, 40, 64));
    assert!(registry.apply_set(handles[0], 2, wood).is_ok());
    let once = snapshot(&registry, &handles);
    assert_eq!(registry.apply_set(handles[0], 2, wood), Ok(SlotChange { slot: 2, new_stack: wood }));
    assert_eq!(snapshot(&registry, &handles), once);
    assert_eq!(registry.stack_at(handles[0], 2), wood);
}

#[test]
fn move_with_a_missing_container_is_refused() {
    let (mut registry, handles) = registry_with(&[1]);
    let missing = InventoryHandle { index: 9, generation: 0 };
    assert!(registry.apply_set(handles[0], 0, Some(ItemStack::new(WOOD, 1, 64))).is_ok());
    assert_eq!(registry.apply_move(handles[0], 0, missing, 0, 1, false), Err(InventoryError::ContainerNotFound));
    assert_eq!(registry.apply_move(missing, 0, handles[0], 0, 1, false), Err(InventoryError::ContainerNotFound));
    assert_eq!(registry.stack_at(handles[0], 0), Some(ItemStack::new(WOOD, 1, 64)));
}

#[test]
fn move_out_of_bounds_is_refused() {
    let (mut registry, handles) = registry_with(&[1, 2]);
    assert!(registry.apply_set(handles[0], 0, Some(ItemStack::new(WOOD, 1, 64))).is_ok());
    let before = snapshot(&registry, &handles);
    assert_eq!(registry.apply_move(handles[0], 1, handles[1], 0, 1, false), Err(InventoryError::SlotOutOfBounds));
    assert_eq!(registry.apply_move(handles[0], 0, handles[1], 2, 1, false), Err(InventoryError::SlotOutOfBounds));
    assert_eq!(snapshot(&registry, &handles), before);
}

#[test]
fn move_from_an_empty_slot_is_refused_and_changes_nothing() {
    let (mut registry, handles) = registry_with(&[2, 2]);
    assert!(registry.apply_set(handles[1], 0, Some(ItemStack::new(WOOD, 3, 64))).is_ok());
    let before = snapshot(&registry, &handles);
    for amount in [0, 1, 64] {
        for allow_swap in [false, true] {
            for to_slot in [0, 1] {
                assert_eq!(
                    registry.apply_move(handles[0], 1, handles[1], to_slot, amount, allow_swap),
                    Err(InventoryError::SourceSlotEmpty)
                );
            }
        }
    }
    assert_eq!(snapshot(&registry, &handles), before);
}

#[test]
fn move_of_nothing_is_refused() {
    let (mut registry, handles) = registry_with(&[2]);
    assert!(registry.apply_set(handles[0], 0, Some(ItemStack::new(WOOD, 3, 64))).is_ok());
    assert_eq!(registry.apply_move(handles[0], 0, handles[0], 1, 0, false), Err(InventoryError::ZeroAmount));
    assert_eq!(registry.stack_at(handles[0], 0), Some(ItemStack::new(WOOD, 3, 64)));
    assert_eq!(registry.stack_at(handles[0], 1), None);
}

#[test]
fn merge_across_containers_moves_what_fits() {
    let (mut registry, handles) = registry_with(&[1, 1]);
    let (a, b) = (handles[0], handles[1]);
    assert!(registry.apply_set(a, 0, Some(ItemStack::new(WOOD, 40, 64))).is_ok());
    assert!(registry.apply_set(b, 0, Some(ItemStack::new(WOOD, 30, 64))).is_ok());
    assert_eq!(
        registry.apply_move(a, 0, b, 0, 40, false),
        Ok((
            SlotChange { slot: 0, new_stack: Some(ItemStack::new(WOOD, 6, 64)) },
            SlotChange { slot: 0, new_stack: Some(ItemStack::new(WOOD, 64, 64)) },
        ))
    );
    assert_eq!(registry.stack_at(a, 0), Some(ItemStack::new(WOOD, 6, 64)));
    assert_eq!(registry.stack_at(b, 0), Some(ItemStack::new(WOOD, 64, 64)));
}

#[test]
fn move_into_an_empty_slot_of_the_same_container() {
    let (mut registry, handles) = registry_with(&[4]);
    let a = handles[0];
    assert!(registry.apply_set(a, 0, Some(ItemStack::new(WOOD, 10, 64))).is_ok());
    assert_eq!(
        registry.apply_move(a, 0, a, 3, 4, false),
        Ok((
            SlotChange { slot: 0, new_stack: Some(ItemStack::new(WOOD, 6, 64)) },
            SlotChange { slot: 3, new_stack: Some(ItemStack::new(WOOD, 4, 64)) },
        ))
    );
    assert_eq!(snapshot(&registry, &handles), vec![vec![
        Some(ItemStack::new(WOOD, 6, 64)),
        None,
        None,
        Some(ItemStack::new(WOOD, 4, 64)),
    ]]);
}

#[test]
fn moving_a_whole_stack_clears_the_source_slot() {
    let (mut registry, handles) = registry_with(&[2, 2]);
    let (a, b) = (handles[0], handles[1]);
    assert!(registry.apply_set(a, 1, Some(ItemStack::new(WOOD, 10, 64))).is_ok());
    assert_eq!(
        registry.apply_move(a, 1, b, 0, 10, false),
        Ok((
            SlotChange { slot: 1, new_stack: None },
            SlotChange { slot: 0, new_stack: Some(ItemStack::new(WOOD, 10, 64)) },
        ))
    );
    assert_eq!(registry.get(a).expect("live").slots.len(), 0);
}

#[test]
fn full_destination_refuses_and_changes_nothing() {
    let (mut registry, handles) = registry_with(&[1, 1]);
    let (a, b) = (handles[0], handles[1]);
    assert!(registry.apply_set(a, 0, Some(ItemStack::new(WOOD, 5, 64))).is_ok());
    assert!(registry.apply_set(b, 0, Some(ItemStack::new(WOOD, 64, 64))).is_ok());
    let before = snapshot(&registry, &handles);
    assert_eq!(registry.apply_move(a, 0, b, 0, 5, true), Err(InventoryError::DestinationFull));
    assert_eq!(snapshot(&registry, &handles), before);
}

#[test]
fn swap_and_swap_back_restores_the_arrangement() {
    let (mut registry, handles) = registry_with(&[2, 2]);
    let (a, b) = (handles[0], handles[1]);
    assert!(registry.apply_set(a, 0, Some(ItemStack::new(WOOD, 5, 64))).is_ok());
    assert!(registry.apply_set(b, 1, Some(ItemStack::new(STONE, 9, 16))).is_ok());
    let before = snapshot(&registry, &handles);
    assert!(registry.apply_move(a, 0, b, 1, 5, true).is_ok());
    assert_eq!(registry.stack_at(a, 0), Some(ItemStack::new(STONE, 9, 16)));
    assert_eq!(registry.stack_at(b, 1), Some(ItemStack::new(WOOD, 5, 64)));
    assert!(registry.apply_move(b, 1, a, 0, 5, true).is_ok());
    assert_eq!(snapshot(&registry, &handles), before);
    assert!(registry.apply_move(a, 0, b, 1, 5, true).is_ok());
    assert!(registry.apply_move(a, 0, b, 1, 9, true).is_ok());
    assert_eq!(snapshot(&registry, &handles), before);
}

#[test]
fn swap_within_one_container() {
    let (mut registry, handles) = registry_with(&[3]);
    let a = handles[0];
    assert!(registry.apply_set(a, 0, Some(ItemStack::new(WOOD, 5, 64))).is_ok());
    assert!(registry.apply_set(a, 2, Some(ItemStack::new(STONE, 9, 16))).is_ok());
    assert!(registry.apply_move(a, 0, a, 2, 64, true).is_ok());
    assert_eq!(snapshot(&registry, &handles), vec![vec![
        Some(ItemStack::new(STONE, 9, 16)),
        None,
        Some(ItemStack::new(WOOD, 5, 64)),
    ]]);
}

#[test]
fn partial_swap_is_refused_and_changes_nothing() {
    let (mut registry, handles) = registry_with(&[1, 1]);
    let (a, b) = (handles[0], handles[1]);
    assert!(registry.apply_set(a, 0, Some(ItemStack::new(WOOD, 5, 64))).is_ok());
    assert!(registry.apply_set(b, 0, Some(ItemStack::new(STONE, 9, 16))).is_ok());
    let before = snapshot(&registry, &handles);
    assert_eq!(registry.apply_move(a, 0, b, 0, 4, true), Err(InventoryError::IncompatibleDestination));
    assert_eq!(registry.apply_move(a, 0, b, 0, 5, false), Err(InventoryError::IncompatibleDestination));
    assert_eq!(snapshot(&registry, &handles), before);
}

#[test]
fn a_slot_moved_onto_itself_stays_as_it_was() {
    let (mut registry, handles) = registry_with(&[1]);
    let a = handles[0];
    let wood = Some(ItemStack::new(WOOD, 40, 64));
    assert!(registry.apply_set(a, 0, wood).is_ok());
    assert_eq!(
        registry.apply_move(a, 0, a, 0, 5, false),
        Ok((SlotChange { slot: 0, new_stack: wood }, SlotChange { slot: 0, new_stack: wood }))
    );
    assert_eq!(registry.stack_at(a, 0), wood);
    assert_eq!(registry.apply_move(a, 0, a, 0, 500, true).map(|_| ()), Ok(()));
    assert_eq!(registry.stack_at(a, 0), wood);
}

#[test]
fn a_full_slot_moved_onto_itself_is_refused_as_full() {
    let (mut registry, handles) = registry_with(&[1]);
    let a = handles[0];
    let wood = Some(ItemStack::new(WOOD, 64, 64));
    assert!(registry.apply_set(a, 0, wood).is_ok());
    assert_eq!(registry.apply_move(a, 0, a, 0, 5, true), Err(InventoryError::DestinationFull));
    assert_eq!(registry.stack_at(a, 0), wood);
}

#[test]
fn an_empty_slot_moved_onto_itself_is_refused_as_empty() {
    let (mut registry, handles) = registry_with(&[1]);
    assert_eq!(
        registry.apply_move(handles[0], 0, handles[0], 0, 5, true),
        Err(InventoryError::SourceSlotEmpty)
    );
    assert_eq!(registry.stack_at(handles[0], 0), None);
}

#[test]
fn apply_action_reports_each_changed_slot() {
    let (mut registry, handles) = registry_with(&[2, 2]);
    let (a, b) = (handles[0], handles[1]);
    let wood = Some(ItemStack::new(WOOD, 10, 64));
    assert_eq!(
        registry.apply_action(&InventoryAction::SetSlot { inv: a, slot: 1, stack: wood }),
        Ok(vec![(a, SlotChange { slot: 1, new_stack: wood })])
    );
    let moving = InventoryAction::Move {
        from_inv: a,
        from_slot: 1,
        to_inv: b,
        to_slot: 0,
        amount: 3,
        allow_swap: false,
    };
    assert_eq!(
        registry.apply_action(&moving),
        Ok(vec![
            (a, SlotChange { slot: 1, new_stack: Some(ItemStack::new(WOOD, 7, 64)) }),
            (b, SlotChange { slot: 0, new_stack: Some(ItemStack::new(WOOD, 3, 64)) }),
        ])
    );
    let refused = InventoryAction::SetSlot { inv: a, slot: 2, stack: None };
    assert_eq!(registry.apply_action(&refused), Err(InventoryError::SlotOutOfBounds));
}

#[test]
fn stacks_stay_within_their_bounds() {
    let (mut registry, handles) = registry_with(&[3, 3]);
    let (a, b) = (handles[0], handles[1]);
    assert!(registry.apply_set(a, 0, Some(ItemStack::new(WOOD, 40, 64))).is_ok());
    assert!(registry.apply_set(a, 1, Some(ItemStack::new(STONE, 16, 16))).is_ok());
    assert!(registry.apply_set(b, 0, Some(ItemStack::new(WOOD, 60, 64))).is_ok());
    let slots = [(a, 0), (a, 1), (a, 2), (b, 0), (b, 1), (b, 2)];
    for (from_inv, from_slot) in slots {
        for (to_inv, to_slot) in slots {
            for amount in [0u16, 1, 3, 16, 64, 1000] {
                for allow_swap in [false, true] {
                    let total: u32 = snapshot(&registry, &handles)
                        .iter()
                        .flatten()
                        .flatten()
                        .map(|s| u32::from(s.count))
                        .sum();
                    let _ = registry.apply_move(from_inv, from_slot, to_inv, to_slot, amount, allow_swap);
                    let after = snapshot(&registry, &handles);
                    for stack in after.iter().flatten().flatten() {
                        assert!(1 <= stack.count && stack.count <= stack.max_stack);
                    }
                    let left: u32 = after.iter().flatten().flatten().map(|s| u32::from(s.count)).sum();
                    assert_eq!(total, left);
                }
            }
        }
    }
}

#[test]
fn messages_name_the_rule() {
    assert_eq!(InventoryError::ContainerNotFound.message(), "Inventory entity not found");
    assert_eq!(InventoryError::SlotOutOfBounds.message(), "Slot out of bounds");
    assert_eq!(InventoryError::SourceSlotEmpty.message(), "Source slot empty");
    assert_eq!(InventoryError::ZeroAmount.message(), "Move amount is zero");
    assert_eq!(InventoryError::DestinationFull.message(), "Destination stack full");
    assert_eq!(
        InventoryError::IncompatibleDestination.message(),
        "Destination occupied by different item (swap not allowed)"
    );
}
