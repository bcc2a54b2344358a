use text_rpg::command::{parse_command, Command, CommandType};
use text_rpg::equipment::EquipSlot;
use text_rpg::events::{
    AppState, EquipEvent, GameEvent, GiveItemEvent, LogEvent, Message, UnequipEvent, UseItemEvent,
};
use text_rpg::game::Game;
use text_rpg::items::{ItemEntry, ItemList};

fn entry(id: &str, name: &str, item_type: &str, atk: i32, max_hp: i32, heal: i32) -> ItemEntry {
    ItemEntry {
        id: id.to_string(),
        name: name.to_string(),
        atk,
        def: 0,
        max_hp,
        rng: 0,
        heal,
        item_type: item_type.to_string(),
    }
}

fn catalog() -> ItemList {
    ItemList {
        items: vec![
            entry("sword", "Iron Sword", "weapon", 5, 0, 0),
            entry("potion_small", "Small Potion", "potion", 0, 0, 5),
            entry("gold_coin", "Gold Coin", "treasure", 0, 0, 0),
            entry("scroll_fire", "Fire Scroll", "scroll", 0, 0, 0),
            entry("key_iron", "Iron Key", "key", 0, 0, 0),
            entry("axe", "Axe", "weapon", 7, 0, 0),
            entry("amulet", "Amulet", "accessory", 0, 10, 0),
            entry("water", "Water", "potion", 0, 0, 0),
        ],
    }
}

fn started() -> Game {
    let mut g = Game::new();
    g.start_loading();
    assert!(g.check_loaded(catalog()));
    g
}

fn run(g: &mut Game, line: &str) -> Vec<LogEvent> {
    let mut log = Vec::new();
    g.run_line(line, &mut log);
    log
}

fn died(log: &[LogEvent]) -> usize {
    log.iter().filter(|m| matches!(m, Message::Died)).count()
}

#[test]
fn lifecycle_spawns_player() {
    let mut g = Game::new();
    assert_eq!(g.state, AppState::Startup);
    assert!(!g.check_loaded(catalog()));
    g.start_loading();
    assert_eq!(g.state, AppState::Loading);
    assert!(g.check_loaded(catalog()));
    assert_eq!(g.state, AppState::InGame);
    assert_eq!(g.player.unwrap().stats.hp, 20);
    assert_eq!(g.backpack.slots.len(), 30);
}

#[test]
fn commands_before_start_are_dropped() {
    let mut g = Game::new();
    let mut log = Vec::new();
    assert!(!g.run_line("exit", &mut log));
    assert!(log.is_empty());
}

#[test]
fn gain_exp_scenario_levels_once() {
    let mut g = started();
    let log = run(&mut g, "gain_exp 10");
    let p = g.player.unwrap();
    assert_eq!(p.stats.lv, 2);
    assert_eq!(p.stats.exp, 0);
    assert_eq!(p.stats.max_hp, 22);
    assert_eq!(p.stats.atk, 3);
    assert_eq!(p.stats.def, 2);
    assert_eq!(p.stats.hp, 22);
    assert!(matches!(log[0], Message::GainedExp(10)));
    assert!(matches!(log[1], Message::LeveledUp { from: 1, to: 2 }));
    assert!(matches!(log[2], Message::ReachedLevel(2)));
    assert_eq!(log.len(), 3);
}

#[test]
fn one_level_up_notification_per_level() {
    let mut g = started();
    let log = run(&mut g, "gain_exp 145");
    let levels: Vec<i32> = log
        .iter()
        .filter_map(|m| match m {
            Message::ReachedLevel(l) => Some(*l),
            _ => None,
        })
        .collect();
    assert_eq!(levels, vec![2, 3, 4]);
    assert_eq!(g.player.unwrap().base.max_hp, 26);
}

#[test]
fn equip_weapon_then_fatal_damage_dies_once() {
    let mut g = started();
    run(&mut g, "give sword 1");
    let log = run(&mut g, "equip weapon 0");
    assert!(matches!(&log[0], Message::Equipped { slot: EquipSlot::Weapon, name } if name == "Iron Sword"));
    assert_eq!(g.player.unwrap().stats.atk, 7);
    let log = run(&mut g, "take_damage 100");
    assert_eq!(died(&log), 1);
    assert_eq!(g.player.unwrap().stats.hp, 0);
}

#[test]
fn potion_heals_and_clears_slot() {
    let mut g = started();
    run(&mut g, "give potion_small 1");
    run(&mut g, "take_damage 8");
    let log = run(&mut g, "use 0");
    assert!(matches!(&log[0], Message::UsedPotion { heal: 5, .. }));
    assert!(matches!(log[1], Message::Healed { amount: 5, hp: 17, max_hp: 20 }));
    assert_eq!(g.backpack.slots[0].count, 0);
    assert_eq!(g.backpack.slots[0].proto.id, "");
    assert_eq!(g.backpack.slots[0].proto.name, "");
}

#[test]
fn potion_use_dispatches_heal_event() {
    let mut g = started();
    run(&mut g, "give potion_small 1");
    let mut log = Vec::new();
    let d = g.use_item(&UseItemEvent { index: 0 }, &mut log);
    assert_eq!(d.len(), 1);
    assert!(matches!(&d[0], GameEvent::Heal(h) if h.amount == 5));
    assert_eq!(g.backpack.slots[0].count, 0);
    assert_eq!(g.backpack.slots[0].proto.heal, 0);
}

#[test]
fn full_backpack_drops_unknown_gift() {
    let mut g = started();
    for i in 0..30 {
        g.backpack.slots[i].proto = entry(&format!("filler{i}"), "Filler", "junk", 0, 0, 0);
        g.backpack.slots[i].count = 1;
    }
    let log = run(&mut g, "give gold_coin 1");
    assert!(matches!(&log[0], Message::BackpackFull { name } if name == "Gold Coin"));
    assert_eq!(g.backpack.slots.len(), 30);
    for i in 0..30 {
        assert_eq!(g.backpack.slots[i].count, 1);
        assert_eq!(g.backpack.slots[i].proto.id, format!("filler{i}"));
    }
}

#[test]
fn give_merges_and_matches_case() {
    let mut g = started();
    run(&mut g, "give POTION_SMALL 2");
    run(&mut g, "give potion_small 3");
    assert_eq!(g.backpack.slots[0].count, 5);
    assert_eq!(g.backpack.slots[0].proto.id, "potion_small");
    assert_eq!(g.backpack.slots[1].count, 0);
}

#[test]
fn give_unknown_id_warns() {
    let mut g = started();
    let log = run(&mut g, "give dragon 1");
    assert!(matches!(&log[0], Message::UnknownItem(id) if id == "dragon"));
    assert_eq!(g.backpack.slots[0].count, 0);
}

#[test]
fn give_malformed_count_defaults_to_one() {
    let mut g = started();
    run(&mut g, "give sword many");
    assert_eq!(g.backpack.slots[0].count, 1);
    run(&mut g, "give axe");
    assert_eq!(g.backpack.slots[1].count, 1);
}

#[test]
fn equip_unequip_round_trip() {
    let mut g = started();
    run(&mut g, "give gold_coin 1");
    run(&mut g, "give sword 1");
    run(&mut g, "equip weapon 1");
    assert_eq!(g.backpack.slots[1].count, 0);
    let log = run(&mut g, "unequip weapon");
    assert!(matches!(&log[0], Message::Unequipped { slot: EquipSlot::Weapon, name } if name == "Iron Sword"));
    assert!(g.equipment.weapon.is_none());
    assert_eq!(g.backpack.slots[1].count, 1);
    assert_eq!(g.backpack.slots[1].proto.id, "sword");
    assert_eq!(g.player.unwrap().stats.atk, 2);
}

#[test]
fn equip_swap_returns_old_item() {
    let mut g = started();
    run(&mut g, "give sword 1");
    run(&mut g, "give axe 1");
    run(&mut g, "equip weapon 0");
    run(&mut g, "equip weapon 1");
    assert_eq!(g.equipment.weapon.as_ref().unwrap().proto.id, "axe");
    assert_eq!(g.backpack.slots[0].count, 1);
    assert_eq!(g.backpack.slots[0].proto.id, "sword");
    assert_eq!(g.backpack.slots[1].count, 0);
    assert_eq!(g.player.unwrap().stats.atk, 9);
}

#[test]
fn equip_swap_with_full_backpack_changes_nothing() {
    let mut g = started();
    run(&mut g, "give sword 1");
    run(&mut g, "equip weapon 0");
    for i in 0..30 {
        g.backpack.slots[i].proto = entry("axe", "Axe", "weapon", 7, 0, 0);
        g.backpack.slots[i].count = 1;
    }
    let mut log = Vec::new();
    let d = g.equip_item(&EquipEvent { slot: "weapon".to_string(), index: 3 }, &mut log);
    assert!(d.is_empty());
    assert!(matches!(log[0], Message::SwapBlocked));
    assert_eq!(g.equipment.weapon.as_ref().unwrap().proto.id, "sword");
    for i in 0..30 {
        assert_eq!(g.backpack.slots[i].count, 1);
        assert_eq!(g.backpack.slots[i].proto.id, "axe");
    }
}

#[test]
fn unequip_with_full_backpack_keeps_item() {
    let mut g = started();
    run(&mut g, "give sword 1");
    run(&mut g, "equip weapon 0");
    for i in 0..30 {
        g.backpack.slots[i].count = 2;
    }
    let mut log = Vec::new();
    g.unequip_item(&UnequipEvent { slot: "weapon".to_string() }, &mut log);
    assert!(matches!(log[0], Message::UnequipBlocked));
    assert!(g.equipment.weapon.is_some());
}

#[test]
fn equip_errors() {
    let mut g = started();
    assert!(matches!(&run(&mut g, "equip hand 0")[0], Message::UnknownSlot(s) if s == "hand"));
    assert!(matches!(run(&mut g, "equip head 99")[0], Message::IndexOutOfRange));
    assert!(matches!(run(&mut g, "equip head 0")[0], Message::EmptyBackpackSlot));
    assert!(matches!(&run(&mut g, "unequip body")[0], Message::SlotEmpty(s) if s == "body"));
    assert!(matches!(&run(&mut g, "unequip tail")[0], Message::UnknownSlot(s) if s == "tail"));
}

#[test]
fn use_rules_by_category() {
    let mut g = started();
    run(&mut g, "give scroll_fire 2");
    run(&mut g, "give key_iron 1");
    run(&mut g, "give gold_coin 1");
    run(&mut g, "give water 1");
    assert!(matches!(run(&mut g, "use 0")[0], Message::UsedScroll { .. }));
    assert_eq!(g.backpack.slots[0].count, 1);
    assert!(matches!(run(&mut g, "use 1")[0], Message::NoDoor { .. }));
    assert_eq!(g.backpack.slots[1].count, 1);
    assert!(matches!(run(&mut g, "use 2")[0], Message::CannotUse { .. }));
    assert_eq!(g.backpack.slots[2].count, 1);
    assert!(matches!(run(&mut g, "use 3")[0], Message::NoEffect { .. }));
    assert_eq!(g.backpack.slots[3].count, 0);
    assert!(matches!(run(&mut g, "use 3")[0], Message::EmptyBackpackSlot));
    assert!(matches!(run(&mut g, "use 30")[0], Message::IndexOutOfRange));
}

#[test]
fn heal_logs_only_real_gain() {
    let mut g = started();
    assert!(run(&mut g, "heal 5").is_empty());
    run(&mut g, "take_damage 3");
    let log = run(&mut g, "heal 10");
    assert!(matches!(log[0], Message::Healed { amount: 3, hp: 20, max_hp: 20 }));
}

#[test]
fn malformed_amounts_default_to_zero() {
    let mut g = started();
    let log = run(&mut g, "take_damage lots");
    assert!(matches!(log[0], Message::Damaged { damage: 0, hp: 20, max_hp: 20 }));
    let log = run(&mut g, "gain_exp");
    assert!(matches!(log[0], Message::GainedExp(0)));
}

#[test]
fn inventory_lists_occupied_slots_in_order() {
    let mut g = started();
    assert!(matches!(run(&mut g, "inventory")[0], Message::InventoryEmpty));
    run(&mut g, "give sword 1");
    run(&mut g, "give gold_coin 4");
    g.backpack.slots[0].count = 0;
    let log = run(&mut g, "inv");
    assert_eq!(log.len(), 1);
    assert!(matches!(&log[0], Message::InventoryLine { index: 1, count: 4, id, .. } if id == "gold_coin"));
}

#[test]
fn items_lists_catalog_with_uuids() {
    let mut g = started();
    let log = run(&mut g, "items");
    assert_eq!(log.len(), 8);
    assert!(matches!(&log[0], Message::CatalogLine { uuid, id, .. }
        if uuid == "b244b914-3cf7-5a2d-9611-f6674f9c36d4" && id == "sword"));
}

#[test]
fn items_lookup_by_name_id_or_uuid() {
    let mut g = started();
    let log = run(&mut g, "item SMALL");
    assert!(matches!(log[0], Message::NoMatchingItem));
    let log = run(&mut g, "items Axe");
    assert!(matches!(&log[0], Message::ItemDetail { id, atk: 7, .. } if id == "axe"));
    let log = run(&mut g, "i FB961EAC-46C4-52D7-BA2A-9832856129A4");
    assert!(matches!(&log[0], Message::ItemDetail { id, heal: 5, .. } if id == "potion_small"));
    let log = run(&mut g, "i POTION_small");
    assert!(matches!(&log[0], Message::ItemDetail { name, .. } if name == "Small Potion"));
}

#[test]
fn status_and_stats_and_exit() {
    let mut g = started();
    run(&mut g, "give sword 1");
    run(&mut g, "equip weapon 0");
    let log = run(&mut g, "status");
    assert!(matches!(log[0], Message::StatusHeader { state: AppState::InGame, items_loaded: 8 }));
    assert!(matches!(&log[1], Message::Weapon { id, .. } if id == "sword"));
    assert!(matches!(log[2], Message::InventoryEmpty));
    let log = run(&mut g, "stats");
    assert!(matches!(log[0], Message::StatsReport(s) if s.atk == 7));
    let mut log = Vec::new();
    assert!(g.run_line("quit", &mut log));
    assert!(matches!(log[0], Message::Farewell));
}

#[test]
fn unsupported_verb_is_logged() {
    let mut g = started();
    let log = run(&mut g, "Dance wildly");
    assert!(matches!(&log[0], Message::Unsupported(v) if v == "dance"));
    assert!(matches!(run(&mut g, "HELP")[0], Message::Help));
}

#[test]
fn parser_defaults_and_types() {
    assert!(matches!(parse_command("give  sword   3"), Command::Give { id, count: 3 } if id == "sword"));
    assert!(matches!(parse_command("give sword -2"), Command::Give { count: 1, .. }));
    assert!(matches!(parse_command("equip weapon x"), Command::Equip { index: 0, .. }));
    assert!(matches!(parse_command("use"), Command::Use { index: 0 }));
    assert!(matches!(parse_command("heal -4"), Command::Heal { amount: -4 }));
    assert!(matches!(parse_command("take_damage 2x"), Command::TakeDamage { damage: 0 }));
    assert!(matches!(parse_command("items"), Command::Items(None)));
    assert!(matches!(parse_command("   "), Command::Unsupported(v) if v.is_empty()));
    assert_eq!(parse_command("use 1").command_type(), CommandType::Game);
    assert_eq!(parse_command("status").command_type(), CommandType::System);
    assert_eq!(parse_command("nope").command_type(), CommandType::System);
}

#[test]
fn dispatch_runs_to_quiescence() {
    let mut g = started();
    let mut log = Vec::new();
    g.dispatch(GameEvent::Give(GiveItemEvent { id: "amulet".to_string(), count: 1 }), &mut log);
    g.dispatch(GameEvent::Equip(EquipEvent { slot: "accessory".to_string(), index: 0 }), &mut log);
    // equip -> equipment changed -> recalculation, then the backpack listing
    assert_eq!(g.player.unwrap().stats.max_hp, 30);
    assert_eq!(g.player.unwrap().stats.hp, 30);
    assert!(matches!(log.last().unwrap(), Message::InventoryEmpty));
}
