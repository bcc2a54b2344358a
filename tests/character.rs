use text_rpg::character::{spawn_player, BaseStats, Stats};
use text_rpg::equipment::Equipment;
use text_rpg::items::{ItemEntry, ItemStack};

fn item(id: &str, atk: i32, def: i32, max_hp: i32, rng: i32) -> ItemEntry {
    ItemEntry {
        id: id.to_string(),
        name: id.to_string(),
        atk,
        def,
        max_hp,
        rng,
        heal: 0,
        item_type: "armor".to_string(),
    }
}

#[test]
fn default_stats() {
    let s = Stats::default();
    assert_eq!(s, Stats { hp: 20, max_hp: 20, atk: 2, def: 1, lv: 1, exp: 0, rng: 1 });
    let b = BaseStats::default();
    assert_eq!(b, BaseStats { max_hp: 20, atk: 2, def: 1, lv: 1, exp: 0, rng: 1 });
    assert_eq!(BaseStats::from(&s), b);
}

#[test]
fn exp_to_next_is_ten_times_square() {
    let mut s = Stats::default();
    for lv in 1..=20 {
        s.lv = lv;
        assert_eq!(s.exp_to_next(), 10 * lv * lv);
    }
}

#[test]
fn gain_ten_exp_levels_once() {
    let mut s = Stats::default();
    s.gain_exp(10);
    assert_eq!(s, Stats { hp: 22, max_hp: 22, atk: 3, def: 2, lv: 2, exp: 0, rng: 1 });
}

#[test]
fn gain_below_threshold_keeps_level() {
    let mut s = Stats::default();
    s.hp = 5;
    s.gain_exp(9);
    assert_eq!(s, Stats { hp: 5, max_hp: 20, atk: 2, def: 1, lv: 1, exp: 9, rng: 1 });
}

#[test]
fn gain_many_levels_at_once() {
    // thresholds 10, 40, 90: 145 experience buys three levels and leaves 5
    let mut s = Stats::default();
    s.hp = 1;
    s.gain_exp(145);
    assert_eq!(s.lv, 4);
    assert_eq!(s.exp, 5);
    assert_eq!(s.max_hp, 26);
    assert_eq!(s.atk, 5);
    assert_eq!(s.def, 4);
    assert_eq!(s.hp, 26);
    assert!(s.exp < s.exp_to_next());
}

#[test]
fn repeated_gains_never_leave_a_rollover() {
    let mut s = Stats::default();
    for amount in [3, 50, 7, 200, 1, 999, 10, 40] {
        s.gain_exp(amount);
        assert!(s.exp >= 0 && s.exp < s.exp_to_next());
    }
}

#[test]
fn level_up_without_enough_exp_does_nothing() {
    let mut s = Stats::default();
    s.exp = 9;
    let before = s;
    assert!(!s.can_level_up());
    s.level_up();
    assert_eq!(s, before);
    s.exp = 10;
    assert!(s.can_level_up());
    s.level_up();
    assert_eq!(s.lv, 2);
    assert_eq!(s.exp, 0);
}

#[test]
fn damage_clamps_at_zero() {
    let mut s = Stats::default();
    assert!(!s.take_damage(5));
    assert_eq!(s.hp, 15);
    assert!(s.take_damage(100));
    assert_eq!(s.hp, 0);
    assert!(s.is_dead());
}

#[test]
fn heal_clamps_at_max() {
    let mut s = Stats::default();
    s.hp = 10;
    s.heal(3);
    assert_eq!(s.hp, 13);
    s.heal(100);
    assert_eq!(s.hp, 20);
}

#[test]
fn player_gain_raises_floor() {
    let mut p = spawn_player();
    assert!(p.gain_exp(50));
    assert_eq!(p.stats.lv, 3);
    assert_eq!(p.base, BaseStats { max_hp: 24, atk: 4, def: 3, lv: 3, exp: 0, rng: 1 });
}

#[test]
fn player_gain_refuses_overflow() {
    let mut p = spawn_player();
    p.stats.exp = i32::MAX;
    let before = p;
    assert!(!p.gain_exp(1));
    assert_eq!(p, before);
}

#[test]
fn recalc_scales_hp_up_by_ratio() {
    let mut p = spawn_player();
    p.stats.hp = 10;
    let mut eq = Equipment::new();
    eq.body = Some(ItemStack { proto: item("plate", 0, 3, 10, 0), count: 1 });
    assert!(p.recalculate_stats(&eq));
    // ceil(30 * 10 / 20) = 15
    assert_eq!(p.stats.max_hp, 30);
    assert_eq!(p.stats.hp, 15);
    assert_eq!(p.stats.def, 4);
}

#[test]
fn recalc_rounds_hp_up() {
    let mut p = spawn_player();
    p.stats.hp = 7;
    let mut eq = Equipment::new();
    eq.head = Some(ItemStack { proto: item("helm", 0, 0, 5, 0), count: 1 });
    assert!(p.recalculate_stats(&eq));
    // ceil(25 * 7 / 20) = ceil(8.75) = 9
    assert_eq!(p.stats.hp, 9);
}

#[test]
fn recalc_caps_hp_when_max_drops() {
    let mut p = spawn_player();
    let mut eq = Equipment::new();
    eq.accessory = Some(ItemStack { proto: item("cursed", 1, 0, -5, 2), count: 1 });
    assert!(p.recalculate_stats(&eq));
    assert_eq!(p.stats.max_hp, 15);
    assert_eq!(p.stats.hp, 15);
    assert_eq!(p.stats.atk, 3);
    assert_eq!(p.stats.rng, 3);
}

#[test]
fn recalc_sums_all_slots() {
    let mut p = spawn_player();
    let mut eq = Equipment::new();
    eq.head = Some(ItemStack { proto: item("a", 1, 1, 0, 0), count: 1 });
    eq.body = Some(ItemStack { proto: item("b", 1, 1, 0, 0), count: 1 });
    eq.weapon = Some(ItemStack { proto: item("c", 5, 0, 0, 1), count: 1 });
    eq.accessory = Some(ItemStack { proto: item("d", 1, 1, 0, 0), count: 1 });
    assert!(p.recalculate_stats(&eq));
    assert_eq!(p.stats.atk, 10);
    assert_eq!(p.stats.def, 4);
    assert_eq!(p.stats.rng, 2);
    // unequipping everything goes back to the floor
    assert!(p.recalculate_stats(&Equipment::new()));
    assert_eq!(p.stats.atk, 2);
    assert_eq!(p.stats.def, 1);
    assert_eq!(p.stats.rng, 1);
}
