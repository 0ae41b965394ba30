use feldspar::inventory::build_inventory;
use feldspar::inventory::InventoryHandle;
use feldspar::inventory::InventoryRegistry;
use feldspar::inventory::InventoryRole;
use feldspar::inventory::ItemStack;
use feldspar::inventory::OwnerId;

const PLAYER: OwnerId = OwnerId(1);
const CHEST: OwnerId = OwnerId(2);

#[test]
fn new_registry_resolves_nothing() {
    let registry = InventoryRegistry::new();
    let handle = InventoryHandle { index: 0, generation: 0 };
    assert!(!registry.contains(handle));
    assert!(registry.get(handle).is_none());
    assert_eq!(registry.owner_of(handle), None);
    assert_eq!(registry.role_of(handle), None);
    assert!(registry.containers_of(PLAYER).is_empty());
}

#[test]
fn created_container_is_empty_and_recorded() {
    let mut registry = InventoryRegistry::new();
    let handle = registry.create_container(PLAYER, 30, InventoryRole::Equip);
    assert!(registry.contains(handle));
    let inv = registry.get(handle).expect("the container is live");
    assert_eq!(inv.capacity, 30);
    assert!(inv.slots.is_empty());
    assert_eq!(registry.owner_of(handle), Some(PLAYER));
    assert_eq!(registry.role_of(handle), Some(InventoryRole::Equip));
    assert_eq!(registry.capacity_of(handle), Some(30));
    assert_eq!(registry.stack_at(handle, 0), None);
}

#[test]
fn build_inventory_makes_general_storage() {
    let mut registry = InventoryRegistry::new();
    let handle = build_inventory(&mut registry, PLAYER, 30);
    assert_eq!(registry.role_of(handle), Some(InventoryRole::Storage));
    assert_eq!(registry.owner_of(handle), Some(PLAYER));
    assert_eq!(registry.capacity_of(handle), Some(30));
}

#[test]
fn handles_of_live_containers_differ() {
    let mut registry = InventoryRegistry::new();
    let a = registry.create_container(PLAYER, 1, InventoryRole::Storage);
    let b = registry.create_container(PLAYER, 1, InventoryRole::Storage);
    let c = registry.create_container(CHEST, 1, InventoryRole::Storage);
    assert_ne!(a, b);
    assert_ne!(a, c);
    assert_ne!(b, c);
}

#[test]
fn containers_of_lists_each_container_of_the_owner_once() {
    let mut registry = InventoryRegistry::new();
    let main = registry.create_container(PLAYER, 30, InventoryRole::Storage);
    let chest = registry.create_container(CHEST, 27, InventoryRole::Storage);
    let input = registry.create_container(PLAYER, 2, InventoryRole::Input);
    let output = registry.create_container(PLAYER, 1, InventoryRole::Output);
    assert_eq!(registry.containers_of(PLAYER), vec![main, input, output]);
    assert_eq!(registry.containers_of(CHEST), vec![chest]);
    assert!(registry.containers_of(OwnerId(3)).is_empty());
}

#[test]
fn destroying_an_owner_destroys_all_its_containers() {
    let mut registry = InventoryRegistry::new();
    let main = registry.create_container(PLAYER, 30, InventoryRole::Storage);
    let chest = registry.create_container(CHEST, 27, InventoryRole::Storage);
    let equip = registry.create_container(PLAYER, 4, InventoryRole::Equip);
    assert!(registry.apply_set(chest, 3, Some(ItemStack::new(1, 2, 64))).is_ok());
    assert_eq!(registry.destroy_owner(PLAYER), vec![main, equip]);
    assert!(!registry.contains(main));
    assert!(!registry.contains(equip));
    assert!(registry.containers_of(PLAYER).is_empty());
    assert!(registry.contains(chest));
    assert_eq!(registry.stack_at(chest, 3), Some(ItemStack::new(1, 2, 64)));
    assert_eq!(registry.containers_of(CHEST), vec![chest]);
}

#[test]
fn destroying_an_owner_without_containers_changes_nothing() {
    let mut registry = InventoryRegistry::new();
    let chest = registry.create_container(CHEST, 27, InventoryRole::Storage);
    assert!(registry.destroy_owner(PLAYER).is_empty());
    assert!(registry.contains(chest));
    assert_eq!(registry.destroy_owner(CHEST), vec![chest]);
    assert!(registry.destroy_owner(CHEST).is_empty());
}

#[test]
fn a_stale_handle_does_not_name_the_successor() {
    let mut registry = InventoryRegistry::new();
    let old = registry.create_container(PLAYER, 5, InventoryRole::Storage);
    registry.destroy_owner(PLAYER);
    let new = registry.create_container(CHEST, 9, InventoryRole::Storage);
    assert_ne!(old, new);
    assert!(!registry.contains(old));
    assert!(registry.get(old).is_none());
    assert!(registry.contains(new));
    assert_eq!(registry.capacity_of(new), Some(9));
    assert_eq!(registry.capacity_of(old), None);
    assert_eq!(registry.stack_at(old, 0), None);
    assert_eq!(registry.owner_of(new), Some(CHEST));
}

#[test]
fn a_reused_place_starts_out_empty() {
    let mut registry = InventoryRegistry::new();
    let old = registry.create_container(PLAYER, 5, InventoryRole::Storage);
    assert!(registry.apply_set(old, 0, Some(ItemStack::new(1, 2, 64))).is_ok());
    registry.destroy_owner(PLAYER);
    let new = registry.create_container(PLAYER, 5, InventoryRole::Storage);
    assert_eq!(registry.stack_at(new, 0), None);
}

#[test]
fn handles_are_never_given_twice() {
    let mut registry = InventoryRegistry::new();
    let mut seen = Vec::new();
    for round in 0..20u64 {
        let owner = OwnerId(round % 3);
        for _ in 0..3 {
            let handle = registry.create_container(owner, 1, InventoryRole::Storage);
            assert!(!seen.contains(&handle));
            seen.push(handle);
        }
        let gone = registry.destroy_owner(OwnerId((round + 1) % 3));
        for handle in gone {
            assert!(!registry.contains(handle));
        }
    }
    let live = seen.iter().filter(|h| registry.contains(**h)).count();
    let listed: usize = (0..3).map(|o| registry.containers_of(OwnerId(o)).len()).sum();
    assert_eq!(live, listed);
}

#[test]
fn in_bounds_needs_a_live_container() {
    let mut registry = InventoryRegistry::new();
    let a = registry.create_container(PLAYER, 2, InventoryRole::Storage);
    assert!(registry.in_bounds(a, 0));
    assert!(registry.in_bounds(a, 1));
    assert!(!registry.in_bounds(a, 2));
    registry.destroy_owner(PLAYER);
    assert!(!registry.in_bounds(a, 0));
}
