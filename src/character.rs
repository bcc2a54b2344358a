use vstd::prelude::*;
use crate::equipment::{EquipView, Equipment};
use crate::items::{blank_item, ItemStack, ItemView, StackView};

verus! {

/// Experience needed to leave level `lv`: ten times the square of the level.
pub open spec fn threshold(lv: int) -> int {
    10 * lv * lv
}

/// Level and experience once every affordable level-up has been taken.
pub open spec fn settle_levels(lv: int, exp: int) -> (int, int)
    decreases exp,
{
    if lv >= 1 && threshold(lv) > 0 && exp >= threshold(lv) {
        settle_levels(lv + 1, exp - threshold(lv))
    } else {
        (lv, exp)
    }
}

/// A character's current stats.
#[derive(Debug, Clone, Copy, PartialEq, Eq, Structural)]
pub struct Stats {
    pub hp: i32,
    pub max_hp: i32,
    pub atk: i32,
    pub def: i32,
    pub lv: i32,
    pub exp: i32,
    /// Base attack range.
    pub rng: i32,
}


/// Ten times a square is at least ten once the level is positive.
pub proof fn lemma_threshold_positive(lv: int)
    requires
        lv >= 1,
    ensures
        threshold(lv) >= 10,
{
    assert(10 * lv * lv >= 10) by (nonlinear_arith)
        requires
            lv >= 1,
    ;
}

/// Settling never lowers the level, and leaves less experience than the next threshold.
pub proof fn lemma_settle_levels(lv: int, exp: int)
    requires
        lv >= 1,
    ensures
        settle_levels(lv, exp).0 >= lv,
        settle_levels(lv, exp).1 < threshold(settle_levels(lv, exp).0),
        settle_levels(lv, exp).1 <= exp,
        exp >= threshold(lv) ==> settle_levels(lv, exp).0 > lv,
        exp >= 0 ==> settle_levels(lv, exp).1 >= 0,
        exp <= i32::MAX ==> settle_levels(lv, exp).0 <= if lv > 14655 { lv } else { 14655 },
    decreases exp,
{
    lemma_threshold_positive(lv);
    if exp >= threshold(lv) {
        if exp <= i32::MAX {
            assert(lv <= 14654) by (nonlinear_arith)
                requires
                    exp >= 10 * lv * lv,
                    exp <= i32::MAX,
                    lv >= 1,
            ;
        }
        lemma_settle_levels(lv + 1, exp - threshold(lv));
    }
}

impl Stats {
    /// Whether `exp` reaches the threshold of the current level.
    pub open spec fn can_level_up_spec(&self) -> bool {
        self.exp >= threshold(self.lv as int)
    }

    /// Level reached by adding `amount` experience.
    pub open spec fn level_after_gain(&self, amount: int) -> int {
        settle_levels(self.lv as int, self.exp + amount).0
    }

    /// Experience left after adding `amount` and taking every level-up.
    pub open spec fn exp_after_gain(&self, amount: int) -> int {
        settle_levels(self.lv as int, self.exp + amount).1
    }

    /// Whether gaining `amount` keeps every stat inside `i32`.
    pub open spec fn gain_fits(&self, amount: int) -> bool {
        let n = self.level_after_gain(amount) - self.lv;
        &&& i32::MIN <= self.exp + amount <= i32::MAX
        &&& self.max_hp + 2 * n <= i32::MAX
        &&& self.atk + n <= i32::MAX
        &&& self.def + n <= i32::MAX
    }

    /// Experience needed to leave the current level: `10 * lv * lv`.
    pub fn exp_to_next(&self) -> (r: i32)
        requires
            threshold(self.lv as int) <= i32::MAX,
        ensures
            r == threshold(self.lv as int),
    {
        let l = self.lv as i64;
        assert(-14654 <= l <= 14654) by (nonlinear_arith)
            requires
                10 * l * l <= i32::MAX,
        ;
        assert(0 <= 10 * l * l <= i32::MAX && -146540 <= 10 * l <= 146540) by (nonlinear_arith)
            requires
                -14654 <= l <= 14654,
                10 * l * l <= i32::MAX,
        ;
        (10 * l * l) as i32
    }

    /// Whether the current experience pays for the next level.
    pub fn can_level_up(&self) -> (r: bool)
        ensures
            r == self.can_level_up_spec(),
    {
        if self.lv > 14654 || self.lv < -14654 {
            assert(threshold(self.lv as int) > i32::MAX) by (nonlinear_arith)
                requires
                    self.lv > 14654 || self.lv < -14654,
            ;
            false
        } else {
            assert(threshold(self.lv as int) <= i32::MAX) by (nonlinear_arith)
                requires
                    -14654 <= self.lv <= 14654,
            ;
            self.exp >= self.exp_to_next()
        }
    }

    /// Takes one level-up if the experience pays for it: the threshold is
    /// spent, the level rises by one, max hp by two, attack and defence by
    /// one, and hp is restored to the new max.
    pub fn level_up(&mut self)
        requires
            old(self).can_level_up_spec() ==> {
                &&& old(self).max_hp + 2 <= i32::MAX
                &&& old(self).atk + 1 <= i32::MAX
                &&& old(self).def + 1 <= i32::MAX
            },
        ensures
            old(self).can_level_up_spec() ==> {
                &&& final(self).exp == old(self).exp - threshold(old(self).lv as int)
                &&& final(self).lv == old(self).lv + 1
                &&& final(self).max_hp == old(self).max_hp + 2
                &&& final(self).atk == old(self).atk + 1
                &&& final(self).def == old(self).def + 1
                &&& final(self).hp == final(self).max_hp
                &&& final(self).rng == old(self).rng
            },
            !old(self).can_level_up_spec() ==> *final(self) == *old(self),
    {
        if self.can_level_up() {
            assert(-14654 <= self.lv <= 14654 && threshold(self.lv as int) >= 0)
                by (nonlinear_arith)
                requires
                    self.exp >= 10 * self.lv * self.lv,
            ;
            self.exp -= self.exp_to_next();
            self.lv += 1;
            self.max_hp += 2;
            self.atk += 1;
            self.def += 1;
            self.hp = self.max_hp;
        }
    }

    /// Adds experience, then levels up for as long as the experience pays
    /// for the next threshold (recomputed after each level).
    pub fn gain_exp(&mut self, amount: i32)
        requires
            old(self).lv >= 1,
            old(self).gain_fits(amount as int),
        ensures
            final(self).lv == old(self).level_after_gain(amount as int),
            final(self).exp == old(self).exp_after_gain(amount as int),
            final(self).max_hp == old(self).max_hp + 2 * (final(self).lv - old(self).lv),
            final(self).atk == old(self).atk + (final(self).lv - old(self).lv),
            final(self).def == old(self).def + (final(self).lv - old(self).lv),
            final(self).hp == if final(self).lv > old(self).lv {
                final(self).max_hp
            } else {
                old(self).hp
            },
            final(self).rng == old(self).rng,
            final(self).lv >= old(self).lv,
            final(self).exp < threshold(final(self).lv as int),
    {
        let ghost start = *self;
        let ghost target = settle_levels(start.lv as int, start.exp + amount);
        proof {
            lemma_settle_levels(start.lv as int, start.exp + amount);
        }
        self.exp += amount;
        while self.can_level_up()
            invariant
                self.lv >= start.lv >= 1,
                settle_levels(self.lv as int, self.exp as int) == target,
                self.max_hp == start.max_hp + 2 * (self.lv - start.lv),
                self.atk == start.atk + (self.lv - start.lv),
                self.def == start.def + (self.lv - start.lv),
                self.hp == if self.lv > start.lv { self.max_hp } else { start.hp },
                self.rng == start.rng,
                target.0 >= self.lv,
                start.gain_fits(amount as int),
                target == settle_levels(start.lv as int, start.exp + amount),
            decreases self.exp,
        {
            proof {
                lemma_threshold_positive(self.lv as int);
                lemma_settle_levels(self.lv as int + 1, self.exp - threshold(self.lv as int));
            }
            self.level_up();
        }
        proof {
            lemma_threshold_positive(self.lv as int);
        }
    }

    /// Subtracts `damage` from hp, never going below zero; returns whether
    /// the character is now dead.
    pub fn take_damage(&mut self, damage: i32) -> (dead: bool)
        requires
            old(self).hp - damage <= i32::MAX,
        ensures
            final(self).hp == if old(self).hp - damage < 0 { 0 } else { old(self).hp - damage },
            *final(self) == (Stats { hp: final(self).hp, ..*old(self) }),
            dead == (final(self).hp <= 0),
            final(self).hp >= 0,
    {
        let v: i64 = self.hp as i64 - damage as i64;
        if v < 0 {
            self.hp = 0;
        } else {
            self.hp = v as i32;
        }
        self.hp <= 0
    }

    /// Adds `amount` to hp, never going above max hp.
    pub fn heal(&mut self, amount: i32)
        requires
            old(self).hp + amount >= i32::MIN,
        ensures
            final(self).hp == if old(self).hp + amount > old(self).max_hp {
                old(self).max_hp as int
            } else {
                old(self).hp + amount
            },
            *final(self) == (Stats { hp: final(self).hp, ..*old(self) }),
            final(self).hp <= final(self).max_hp,
    {
        let v: i64 = self.hp as i64 + amount as i64;
        if v > self.max_hp as i64 {
            self.hp = self.max_hp;
        } else {
            self.hp = v as i32;
        }
    }

    /// Whether hp has reached zero.
    pub fn is_dead(&self) -> (r: bool)
        ensures
            r == (self.hp <= 0),
    {
        self.hp <= 0
    }
}

impl Default for Stats {
    /// A fresh level-one character.
    fn default() -> (r: Self)
        ensures
            r == (Stats { hp: 20, max_hp: 20, atk: 2, def: 1, lv: 1, exp: 0, rng: 1 }),
    {
        Stats { hp: 20, max_hp: 20, atk: 2, def: 1, lv: 1, exp: 0, rng: 1 }
    }
}

/// The character's equipment-independent floor, from which stats are
/// recomputed whenever the equipment changes.
#[derive(Debug, Clone, Copy, PartialEq, Eq, Structural)]
pub struct BaseStats {
    pub max_hp: i32,
    pub atk: i32,
    pub def: i32,
    pub lv: i32,
    pub exp: i32,
    pub rng: i32,
}

impl Default for BaseStats {
    /// The floor of a fresh level-one character.
    fn default() -> (r: Self)
        ensures
            r == (BaseStats { max_hp: 20, atk: 2, def: 1, lv: 1, exp: 0, rng: 1 }),
    {
        BaseStats { max_hp: 20, atk: 2, def: 1, lv: 1, exp: 0, rng: 1 }
    }
}

/// The floor that mirrors a set of stats.
pub open spec fn base_of(s: Stats) -> BaseStats {
    BaseStats { max_hp: s.max_hp, atk: s.atk, def: s.def, lv: s.lv, exp: s.exp, rng: s.rng }
}

impl From<&Stats> for BaseStats {
    fn from(stats: &Stats) -> (r: Self)
        ensures
            r == base_of(*stats),
    {
        BaseStats {
            max_hp: stats.max_hp,
            atk: stats.atk,
            def: stats.def,
            lv: stats.lv,
            exp: stats.exp,
            rng: stats.rng,
        }
    }
}

impl vstd::std_specs::convert::FromSpecImpl<&Stats> for BaseStats {
    open spec fn obeys_from_spec() -> bool {
        true
    }

    open spec fn from_spec(v: &Stats) -> BaseStats {
        base_of(*v)
    }
}

/// The definition an optional equipment slot contributes.
pub open spec fn part(o: Option<StackView>) -> ItemView {
    match o {
        Some(st) => st.proto,
        None => blank_item(),
    }
}

/// Sum of the max-hp bonuses of the equipped items.
pub open spec fn bonus_max_hp(e: EquipView) -> int {
    part(e.head).max_hp + part(e.body).max_hp + part(e.weapon).max_hp + part(e.accessory).max_hp
}

/// Sum of the attack bonuses of the equipped items.
pub open spec fn bonus_atk(e: EquipView) -> int {
    part(e.head).atk + part(e.body).atk + part(e.weapon).atk + part(e.accessory).atk
}

/// Sum of the defence bonuses of the equipped items.
pub open spec fn bonus_def(e: EquipView) -> int {
    part(e.head).def + part(e.body).def + part(e.weapon).def + part(e.accessory).def
}

/// Sum of the range bonuses of the equipped items.
pub open spec fn bonus_rng(e: EquipView) -> int {
    part(e.head).rng + part(e.body).rng + part(e.weapon).rng + part(e.accessory).rng
}

/// `a / b` rounded up, for a positive `b`.
pub open spec fn ceil_div(a: int, b: int) -> int {
    if a >= 0 {
        (a + b - 1) / b
    } else {
        -((-a) / b)
    }
}

/// `ceil_div(a, b)` is the least multiple count of `b` that reaches `a`.
pub proof fn lemma_ceil_div(a: int, b: int)
    requires
        b > 0,
    ensures
        ceil_div(a, b) * b >= a,
        (ceil_div(a, b) - 1) * b < a,
{
    if a >= 0 {
        let q = (a + b - 1) / b;
        let r = (a + b - 1) % b;
        vstd::arithmetic::div_mod::lemma_fundamental_div_mod(a + b - 1, b);
        vstd::arithmetic::div_mod::lemma_mod_bound(a + b - 1, b);
        assert(q * b >= a && (q - 1) * b < a) by (nonlinear_arith)
            requires
                a + b - 1 == b * q + r,
                0 <= r < b,
        ;
    } else {
        let q = (-a) / b;
        let r = (-a) % b;
        vstd::arithmetic::div_mod::lemma_fundamental_div_mod(-a, b);
        vstd::arithmetic::div_mod::lemma_mod_bound(-a, b);
        assert((-q) * b >= a && (-q - 1) * b < a) by (nonlinear_arith)
            requires
                -a == b * q + r,
                0 <= r < b,
        ;
    }
}

/// Whether a value fits an `i32`.
pub open spec fn fits_i32(v: int) -> bool {
    i32::MIN <= v <= i32::MAX
}

/// The single character the core manages: its current stats and the floor
/// they are recomputed from.
#[derive(Debug, Clone, Copy, PartialEq, Eq, Structural)]
pub struct Player {
    pub stats: Stats,
    pub base: BaseStats,
}

/// Max hp once the equipment's bonuses are added to the floor.
pub open spec fn recalc_max_hp(p: Player, e: EquipView) -> int {
    p.base.max_hp + bonus_max_hp(e)
}

/// Hp after a recomputation: where max hp rose above the floor's, the old hp
/// is scaled by new max over floor max, rounded up and capped at the new
/// max; else it is only capped at the new max.
pub open spec fn recalc_hp(p: Player, e: EquipView) -> int {
    let m = recalc_max_hp(p, e);
    if m > p.base.max_hp {
        let c = ceil_div(m * p.stats.hp, p.base.max_hp as int);
        if c > m {
            m
        } else {
            c
        }
    } else if p.stats.hp < m {
        p.stats.hp as int
    } else {
        m
    }
}

/// Whether every recomputed stat fits an `i32`.
pub open spec fn recalc_fits(p: Player, e: EquipView) -> bool {
    &&& fits_i32(recalc_max_hp(p, e))
    &&& fits_i32(p.base.atk + bonus_atk(e))
    &&& fits_i32(p.base.def + bonus_def(e))
    &&& fits_i32(p.base.rng + bonus_rng(e))
    &&& fits_i32(recalc_hp(p, e))
}

/// The player after its stats are recomputed from the floor and the equipment.
pub open spec fn recalc_spec(p: Player, e: EquipView) -> Player {
    Player {
        stats: Stats {
            hp: recalc_hp(p, e) as i32,
            max_hp: recalc_max_hp(p, e) as i32,
            atk: (p.base.atk + bonus_atk(e)) as i32,
            def: (p.base.def + bonus_def(e)) as i32,
            rng: (p.base.rng + bonus_rng(e)) as i32,
            ..p.stats
        },
        ..p
    }
}

/// Levels gained by adding `amount` experience.
pub open spec fn levels_gained(p: Player, amount: int) -> int {
    p.stats.level_after_gain(amount) - p.stats.lv
}

/// Whether gaining `amount` keeps the stats and the floor inside `i32`.
pub open spec fn gain_ok(p: Player, amount: int) -> bool {
    let n = levels_gained(p, amount);
    &&& p.stats.gain_fits(amount)
    &&& p.base.max_hp + 2 * n <= i32::MAX
    &&& p.base.atk + n <= i32::MAX
    &&& p.base.def + n <= i32::MAX
}

/// The player after gaining `amount` experience: each level gained adds two
/// max hp and one attack and defence to the stats and to the floor, the
/// floor takes the new level and experience, and hp is restored.
pub open spec fn gain_spec(p: Player, amount: int) -> Player {
    let n = levels_gained(p, amount);
    let lv = p.stats.level_after_gain(amount);
    let exp = p.stats.exp_after_gain(amount);
    let max_hp = p.stats.max_hp + 2 * n;
    Player {
        stats: Stats {
            hp: if n > 0 { max_hp as i32 } else { p.stats.hp },
            max_hp: max_hp as i32,
            atk: (p.stats.atk + n) as i32,
            def: (p.stats.def + n) as i32,
            lv: lv as i32,
            exp: exp as i32,
            rng: p.stats.rng,
        },
        base: if n > 0 {
            BaseStats {
                max_hp: (p.base.max_hp + 2 * n) as i32,
                atk: (p.base.atk + n) as i32,
                def: (p.base.def + n) as i32,
                lv: lv as i32,
                exp: exp as i32,
                rng: p.base.rng,
            }
        } else {
            p.base
        },
    }
}

/// Level reached from level `lv` with `exp` experience, for `exp` inside `i32`.
fn settled_level(lv: i32, exp: i64) -> (r: i64)
    requires
        lv >= 1,
        fits_i32(exp as int),
    ensures
        r == settle_levels(lv as int, exp as int).0,
        lv <= r <= i32::MAX,
{
    if lv > 14654 {
        assert(threshold(lv as int) > i32::MAX) by (nonlinear_arith)
            requires
                lv > 14654,
        ;
        return lv as i64;
    }
    let mut l: i64 = lv as i64;
    let mut x: i64 = exp;
    let mut done = false;
    while !done && l <= 14654
        invariant
            1 <= lv <= l <= 14655,
            fits_i32(x as int),
            settle_levels(l as int, x as int) == settle_levels(lv as int, exp as int),
            done ==> settle_levels(l as int, x as int) == (l as int, x as int),
        decreases x, (if done { 0int } else { 1int }),
    {
        assert(0 < 10 * l * l <= 10 * 14654 * 14654) by (nonlinear_arith)
            requires
                1 <= l <= 14654,
        ;
        let t = 10 * l * l;
        if x < t {
            done = true;
        } else {
            x = x - t;
            l = l + 1;
        }
    }
    if !done {
        assert(threshold(l as int) > i32::MAX) by (nonlinear_arith)
            requires
                l > 14654,
        ;
    }
    l
}

/// Adds what an optional slot contributes to the running bonus sums.
fn add_part(acc: (i64, i64, i64, i64), o: &Option<ItemStack>) -> (r: (i64, i64, i64, i64))
    requires
        -4 * 0x8000_0000 <= acc.0 <= 4 * 0x8000_0000,
        -4 * 0x8000_0000 <= acc.1 <= 4 * 0x8000_0000,
        -4 * 0x8000_0000 <= acc.2 <= 4 * 0x8000_0000,
        -4 * 0x8000_0000 <= acc.3 <= 4 * 0x8000_0000,
    ensures
        r.0 == acc.0 + part(crate::equipment::opt_view(*o)).max_hp,
        r.1 == acc.1 + part(crate::equipment::opt_view(*o)).atk,
        r.2 == acc.2 + part(crate::equipment::opt_view(*o)).def,
        r.3 == acc.3 + part(crate::equipment::opt_view(*o)).rng,
{
    match o {
        Some(st) => (
            acc.0 + st.proto.max_hp as i64,
            acc.1 + st.proto.atk as i64,
            acc.2 + st.proto.def as i64,
            acc.3 + st.proto.rng as i64,
        ),
        None => acc,
    }
}

/// Adds every equipped item's max hp, attack, defence and range bonuses to
/// the floor's, visiting head, body, weapon and accessory in that order.
fn apply_equipment_bonuses(base: &BaseStats, equipment: &Equipment) -> (r: (i64, i64, i64, i64))
    ensures
        r.0 == base.max_hp + bonus_max_hp(equipment@),
        r.1 == base.atk + bonus_atk(equipment@),
        r.2 == base.def + bonus_def(equipment@),
        r.3 == base.rng + bonus_rng(equipment@),
{
    let acc = (base.max_hp as i64, base.atk as i64, base.def as i64, base.rng as i64);
    let acc = add_part(acc, &equipment.head);
    let acc = add_part(acc, &equipment.body);
    let acc = add_part(acc, &equipment.weapon);
    add_part(acc, &equipment.accessory)
}

/// A fresh level-one character whose floor mirrors its stats.
pub fn spawn_player() -> (r: Player)
    ensures
        r.wf(),
        r == Player::spawn_spec(),
{
    let stats = Stats::default();
    let base = BaseStats::from(&stats);
    Player { stats, base }
}

impl Player {
    /// The level is at least one and the floor's max hp is positive.
    pub open spec fn wf(&self) -> bool {
        self.stats.lv >= 1 && self.base.max_hp >= 1
    }

    /// A fresh level-one character whose floor mirrors its stats.
    pub open spec fn spawn_spec() -> Player {
        Player {
            stats: Stats { hp: 20, max_hp: 20, atk: 2, def: 1, lv: 1, exp: 0, rng: 1 },
            base: BaseStats { max_hp: 20, atk: 2, def: 1, lv: 1, exp: 0, rng: 1 },
        }
    }


    /// Adds experience and takes every level-up it pays for, raising the
    /// floor by the same amounts. Returns false, changing nothing, where a
    /// stat would leave `i32`.
    pub fn gain_exp(&mut self, amount: i32) -> (r: bool)
        requires
            old(self).wf(),
        ensures
            final(self).wf(),
            r == gain_ok(*old(self), amount as int),
            r ==> *final(self) == gain_spec(*old(self), amount as int),
            !r ==> *final(self) == *old(self),
    {
        let total: i64 = self.stats.exp as i64 + amount as i64;
        if total < i32::MIN as i64 || total > i32::MAX as i64 {
            return false;
        }
        let n: i64 = settled_level(self.stats.lv, total) - self.stats.lv as i64;
        proof {
            lemma_settle_levels(self.stats.lv as int, total as int);
        }
        if n > i32::MAX as i64 || self.stats.max_hp as i64 + 2 * n > i32::MAX as i64
            || self.stats.atk as i64 + n > i32::MAX as i64 || self.stats.def as i64 + n
            > i32::MAX as i64 || self.base.max_hp as i64 + 2 * n > i32::MAX as i64
            || self.base.atk as i64 + n > i32::MAX as i64 || self.base.def as i64 + n
            > i32::MAX as i64 {
            return false;
        }
        let ghost before = *self;
        self.stats.gain_exp(amount);
        if n > 0 {
            let n32 = n as i32;
            self.base.max_hp = self.base.max_hp + 2 * n32;
            self.base.atk = self.base.atk + n32;
            self.base.def = self.base.def + n32;
            self.base.lv = self.stats.lv;
            self.base.exp = self.stats.exp;
        }
        proof {
            lemma_settle_levels(before.stats.lv as int, total as int);
        }
        true
    }

    /// Takes damage, hp never going below zero. Returns whether the
    /// character is dead, or `None`, changing nothing, where hp would pass
    /// `i32::MAX`.
    pub fn take_damage(&mut self, damage: i32) -> (r: Option<bool>)
        requires
            old(self).wf(),
        ensures
            final(self).wf(),
            final(self).base == old(self).base,
            match r {
                Some(dead) => {
                    &&& final(self).stats.hp == if old(self).stats.hp - damage < 0 {
                        0
                    } else {
                        old(self).stats.hp - damage
                    }
                    &&& final(self).stats == (Stats { hp: final(self).stats.hp, ..old(self).stats })
                    &&& dead == (final(self).stats.hp <= 0)
                },
                None => old(self).stats.hp - damage > i32::MAX && *final(self) == *old(self),
            },
    {
        if self.stats.hp as i64 - damage as i64 > i32::MAX as i64 {
            return None;
        }
        Some(self.stats.take_damage(damage))
    }

    /// Heals, hp never going above max hp. Returns false, changing nothing,
    /// where hp would pass `i32::MIN`.
    pub fn heal(&mut self, amount: i32) -> (r: bool)
        requires
            old(self).wf(),
        ensures
            final(self).wf(),
            final(self).base == old(self).base,
            r == (old(self).stats.hp + amount >= i32::MIN),
            r ==> final(self).stats.hp == if old(self).stats.hp + amount > old(self).stats.max_hp {
                old(self).stats.max_hp as int
            } else {
                old(self).stats.hp + amount
            },
            r ==> final(self).stats == (Stats { hp: final(self).stats.hp, ..old(self).stats }),
            !r ==> *final(self) == *old(self),
    {
        if (self.stats.hp as i64) + (amount as i64) < i32::MIN as i64 {
            return false;
        }
        self.stats.heal(amount);
        true
    }

    /// Resets max hp, attack, defence and range to the floor plus the
    /// equipment's bonuses, and rescales hp (see `recalc_hp`). Returns
    /// false, changing nothing, where a stat would leave `i32`.
    pub fn recalculate_stats(&mut self, equipment: &Equipment) -> (r: bool)
        requires
            old(self).wf(),
        ensures
            final(self).wf(),
            r == recalc_fits(*old(self), equipment@),
            r ==> *final(self) == recalc_spec(*old(self), equipment@),
            !r ==> *final(self) == *old(self),
    {
        let sums = apply_equipment_bonuses(&self.base, equipment);
        let (m, a, d, g) = sums;
        let lo = i32::MIN as i64;
        let hi = i32::MAX as i64;
        if m < lo || m > hi || a < lo || a > hi || d < lo || d > hi || g < lo || g > hi {
            return false;
        }
        let hp = self.stats.hp as i64;
        let floor = self.base.max_hp as i64;
        let new_hp: i64 = if m > floor {
            assert(-0x4000_0000_0000_0000 <= m * hp <= 0x4000_0000_0000_0000) by (nonlinear_arith)
                requires
                    i32::MIN <= m <= i32::MAX,
                    i32::MIN <= hp <= i32::MAX,
            ;
            let prod = m * hp;
            let c = if prod >= 0 {
                (prod + floor - 1) / floor
            } else {
                -((-prod) / floor)
            };
            if c > m {
                m
            } else {
                c
            }
        } else if hp < m {
            hp
        } else {
            m
        };
        if new_hp < lo || new_hp > hi {
            return false;
        }
        self.stats.max_hp = m as i32;
        self.stats.atk = a as i32;
        self.stats.def = d as i32;
        self.stats.rng = g as i32;
        self.stats.hp = new_hp as i32;
        true
    }
}

} // verus!
