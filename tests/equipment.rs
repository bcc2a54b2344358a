use text_rpg::equipment::{EquipOutcome, EquipSlot, Equipment, UnequipOutcome};
use text_rpg::inventory::{Backpack, GiveOutcome, UseOutcome, CAPACITY};
use text_rpg::items::{ItemEntry, ItemStack};

fn thing(id: &str, item_type: &str, heal: i32) -> ItemEntry {
    ItemEntry {
        id: id.to_string(),
        name: id.to_uppercase(),
        atk: 1,
        def: 0,
        max_hp: 0,
        rng: 0,
        heal,
        item_type: item_type.to_string(),
    }
}

#[test]
fn slot_names() {
    assert!(Equipment::is_valid_slot("head"));
    assert!(Equipment::is_valid_slot("accessory"));
    assert!(!Equipment::is_valid_slot("Head"));
    assert!(!Equipment::is_valid_slot(""));
    assert_eq!(Equipment::all_slots(), ["head", "body", "weapon", "accessory"]);
    assert_eq!(EquipSlot::from_name("body"), Some(EquipSlot::Body));
    assert_eq!(EquipSlot::from_name("legs"), None);
}

#[test]
fn slot_access() {
    let mut eq = Equipment::new();
    assert!(eq.get_slot("weapon").is_none());
    *eq.get_slot_mut("weapon").unwrap() = Some(ItemStack { proto: thing("sword", "weapon", 0), count: 1 });
    assert_eq!(eq.get_slot("weapon").unwrap().proto.id, "sword");
    assert!(eq.get_slot_mut("wings").is_none());
    assert!(eq.get_slot("wings").is_none());
}

#[test]
fn backpack_give_outcomes() {
    let mut b = Backpack::new(2);
    assert_eq!(b.give(&thing("a", "junk", 0), 3), GiveOutcome::Placed(0));
    assert_eq!(b.give(&thing("a", "junk", 0), 2), GiveOutcome::Merged(0));
    assert_eq!(b.slots[0].count, 5);
    assert_eq!(b.give(&thing("b", "junk", 0), 1), GiveOutcome::Placed(1));
    assert_eq!(b.give(&thing("c", "junk", 0), 1), GiveOutcome::Full);
    assert_eq!(b.give(&thing("a", "junk", 0), u32::MAX), GiveOutcome::Overflow);
    assert_eq!(b.slots[0].count, 5);
    assert_eq!(b.occupied_slots(), vec![0, 1]);
}

#[test]
fn backpack_new_has_capacity_empty_slots() {
    let b = Backpack::new(CAPACITY);
    assert_eq!(b.slots.len(), 30);
    assert!(b.slots.iter().all(|s| s.count == 0 && s.proto.id.is_empty()));
    assert_eq!(b.first_empty(), Some(0));
}

#[test]
fn backpack_use_spends_potions() {
    let mut b = Backpack::new(3);
    b.give(&thing("p", "potion", 4), 2);
    assert_eq!(b.use_item(0), UseOutcome::Potion(4));
    assert_eq!(b.slots[0].count, 1);
    assert_eq!(b.slots[0].proto.id, "p");
    assert_eq!(b.use_item(0), UseOutcome::Potion(4));
    assert_eq!(b.slots[0].count, 0);
    assert_eq!(b.slots[0].proto.item_type, "");
    assert_eq!(b.use_item(0), UseOutcome::Empty);
    assert_eq!(b.use_item(3), UseOutcome::OutOfRange);
}

#[test]
fn equip_and_unequip_move_items() {
    let mut b = Backpack::new(3);
    let mut eq = Equipment::new();
    b.give(&thing("helm", "armor", 0), 2);
    assert_eq!(eq.equip(&mut b, "head", 0), EquipOutcome::Equipped(EquipSlot::Head));
    assert_eq!(b.slots[0].count, 1);
    assert_eq!(eq.head.as_ref().unwrap().count, 1);
    assert_eq!(eq.unequip(&mut b, "head"), UnequipOutcome::Unequipped(EquipSlot::Head, 1));
    assert_eq!(b.slots[1].count, 1);
    assert_eq!(b.slots[1].proto.id, "helm");
    assert!(eq.head.is_none());
    assert_eq!(eq.unequip(&mut b, "head"), UnequipOutcome::SlotEmpty);
    assert_eq!(eq.equip(&mut b, "hat", 0), EquipOutcome::UnknownSlot);
}

#[test]
fn swap_blocked_when_backpack_full() {
    let mut b = Backpack::new(1);
    let mut eq = Equipment::new();
    b.give(&thing("ring", "accessory", 0), 2);
    assert_eq!(eq.equip(&mut b, "accessory", 0), EquipOutcome::Equipped(EquipSlot::Accessory));
    assert_eq!(eq.equip(&mut b, "accessory", 0), EquipOutcome::BackpackFull);
    assert_eq!(b.slots[0].count, 1);
    assert_eq!(eq.accessory.as_ref().unwrap().proto.id, "ring");
    assert_eq!(eq.unequip(&mut b, "accessory"), UnequipOutcome::BackpackFull);
}
