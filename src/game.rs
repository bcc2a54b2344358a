use vstd::prelude::*;
use crate::character::{
    gain_ok, gain_spec, lemma_settle_levels, spawn_player, recalc_fits, recalc_spec, Player, Stats,
};
use crate::equipment::{
    equip_spec, unequip_spec, EquipOutcome, EquipView, Equipment, UnequipOutcome,
};
use crate::events::{
    emit, log_view, AppState, Death, EquipEvent, EquipmentChanged, GainExp, GameEvent, GiveItemEvent,
    Heal, LevelUp, ListInventoryEvent, LogEvent, LogView, Message, RecalculateStats, ShowStats,
    TakeDamage, Target, UnequipEvent, UseItemEvent, PLAYER,
};
use crate::inventory::{give_spec, occupied, use_spec, Backpack, GiveOutcome, UseOutcome, CAPACITY};
use crate::items::{find_id_from, find_token_from, lemma_find_in_range, ItemList, ItemView, StackView};
use crate::command::{parse_command, parses_to, Command};
use crate::text::{item_uuid, lower_of, lowercase, uuid_text_of, words_of};

verus! {

/// The loaded item catalog, once the loader has handed it over.
#[derive(Debug)]
pub struct ItemAssets {
    pub list: Option<ItemList>,
}

/// The mathematical content of the game state.
pub struct GameView {
    pub state: AppState,
    pub catalog: Option<Seq<ItemView>>,
    pub player: Option<Player>,
    pub backpack: Seq<StackView>,
    pub equipment: EquipView,
}

/// All state the core owns: the catalog, the player, the backpack and the
/// equipment, mutated only through the event router.
#[derive(Debug)]
pub struct Game {
    pub state: AppState,
    pub assets: ItemAssets,
    pub player: Option<Player>,
    pub backpack: Backpack,
    pub equipment: Equipment,
}

impl View for Game {
    type V = GameView;

    open spec fn view(&self) -> GameView {
        GameView {
            state: self.state,
            catalog: match self.assets.list {
                Some(l) => Some(l@),
                None => None,
            },
            player: self.player,
            backpack: self.backpack@,
            equipment: self.equipment@,
        }
    }
}

/// Whether an event for `t` reaches the player.
pub open spec fn targets_player(g: GameView, t: Target) -> bool {
    g.player is Some && (t == Target::CurrentPlayer || t == Target::Entity(PLAYER))
}

/// No state change, no derived event, no log line.
pub open spec fn nothing(g: GameView) -> (GameView, Seq<GameEvent>, Seq<LogView>) {
    (g, Seq::empty(), Seq::empty())
}

/// The level-up notifications for the levels after `from`, `n` of them.
pub open spec fn level_ups(from: int, n: int) -> Seq<GameEvent> {
    Seq::new(n as nat, |k: int| GameEvent::LevelUp(LevelUp { entity: PLAYER, new_level: (from + k + 1) as i32 }))
}

pub open spec fn gain_step(g: GameView, e: GainExp) -> (GameView, Seq<GameEvent>, Seq<LogView>) {
    if !targets_player(g, e.target) {
        nothing(g)
    } else {
        let p = g.player->0;
        if !gain_ok(p, e.amount as int) {
            (g, Seq::empty(), seq![Message::NumberTooLarge])
        } else {
            let q = gain_spec(p, e.amount as int);
            let n = q.stats.lv - p.stats.lv;
            (
                GameView { player: Some(q), ..g },
                level_ups(p.stats.lv as int, n),
                if n > 0 {
                    seq![
                        Message::GainedExp(e.amount),
                        Message::LeveledUp { from: p.stats.lv, to: q.stats.lv },
                    ]
                } else {
                    seq![Message::GainedExp(e.amount)]
                },
            )
        }
    }
}

pub open spec fn damage_step(g: GameView, e: TakeDamage) -> (GameView, Seq<GameEvent>, Seq<LogView>) {
    if !targets_player(g, e.target) {
        nothing(g)
    } else {
        let p = g.player->0;
        if p.stats.hp - e.damage > i32::MAX {
            (g, Seq::empty(), seq![Message::NumberTooLarge])
        } else {
            let hp = if p.stats.hp - e.damage < 0 { 0 } else { p.stats.hp - e.damage };
            let q = Player { stats: Stats { hp: hp as i32, ..p.stats }, ..p };
            (
                GameView { player: Some(q), ..g },
                if hp <= 0 { seq![GameEvent::Death(Death { entity: PLAYER })] } else { Seq::empty() },
                seq![Message::Damaged { damage: e.damage, hp: hp as i32, max_hp: p.stats.max_hp }],
            )
        }
    }
}

pub open spec fn heal_step(g: GameView, e: Heal) -> (GameView, Seq<GameEvent>, Seq<LogView>) {
    if !targets_player(g, e.target) {
        nothing(g)
    } else {
        let p = g.player->0;
        if p.stats.hp + e.amount < i32::MIN {
            (g, Seq::empty(), seq![Message::NumberTooLarge])
        } else {
            let hp = if p.stats.hp + e.amount > p.stats.max_hp {
                p.stats.max_hp as int
            } else {
                p.stats.hp + e.amount
            };
            let q = Player { stats: Stats { hp: hp as i32, ..p.stats }, ..p };
            (
                GameView { player: Some(q), ..g },
                Seq::empty(),
                if hp - p.stats.hp > 0 {
                    seq![Message::Healed { amount: (hp - p.stats.hp) as i32, hp: hp as i32, max_hp: p.stats.max_hp }]
                } else {
                    Seq::empty()
                },
            )
        }
    }
}

pub open spec fn show_step(g: GameView, e: ShowStats) -> (GameView, Seq<GameEvent>, Seq<LogView>) {
    if targets_player(g, e.target) {
        (g, Seq::empty(), seq![Message::StatsReport(g.player->0.stats)])
    } else {
        (g, Seq::empty(), seq![Message::NoStats])
    }
}

pub open spec fn recalc_step(g: GameView, e: RecalculateStats) -> (GameView, Seq<GameEvent>, Seq<LogView>) {
    if !targets_player(g, Target::Entity(e.entity)) {
        nothing(g)
    } else if !recalc_fits(g.player->0, g.equipment) {
        (g, Seq::empty(), seq![Message::NumberTooLarge])
    } else {
        (GameView { player: Some(recalc_spec(g.player->0, g.equipment)), ..g }, Seq::empty(), Seq::empty())
    }
}

pub open spec fn give_step(g: GameView, e: GiveItemEvent) -> (GameView, Seq<GameEvent>, Seq<LogView>) {
    match g.catalog {
        None => nothing(g),
        Some(items) => match find_id_from(items, e.id@, 0) {
            None => (g, Seq::empty(), seq![Message::UnknownItem(e.id@)]),
            Some(k) => {
                let (b, r) = give_spec(g.backpack, items[k], e.count);
                let name = items[k].name;
                (
                    GameView { backpack: b, ..g },
                    Seq::empty(),
                    match r {
                        GiveOutcome::Full => seq![Message::BackpackFull { name }],
                        GiveOutcome::Overflow => seq![Message::StackTooLarge { name }],
                        _ => seq![Message::GotItem { name, count: e.count }],
                    },
                )
            },
        },
    }
}

/// One line per occupied slot, in slot order.
pub open spec fn inventory_lines(b: Seq<StackView>, occ: Seq<usize>) -> Seq<LogView> {
    occ.map_values(|i: usize| Message::InventoryLine {
        index: i,
        name: b[i as int].proto.name,
        count: b[i as int].count,
        id: b[i as int].proto.id,
    })
}

pub open spec fn list_step(g: GameView) -> (GameView, Seq<GameEvent>, Seq<LogView>) {
    let occ = occupied(g.backpack);
    (
        g,
        Seq::empty(),
        if occ.len() == 0 {
            seq![Message::InventoryEmpty]
        } else {
            inventory_lines(g.backpack, occ)
        },
    )
}

pub open spec fn use_step(g: GameView, e: UseItemEvent) -> (GameView, Seq<GameEvent>, Seq<LogView>) {
    let (b, r) = use_spec(g.backpack, e.index as int);
    let name = g.backpack[e.index as int].proto.name;
    let h = GameView { backpack: b, ..g };
    match r {
        UseOutcome::OutOfRange => (g, Seq::empty(), seq![Message::IndexOutOfRange]),
        UseOutcome::Empty => (g, Seq::empty(), seq![Message::EmptyBackpackSlot]),
        UseOutcome::Potion(heal) => (
            h,
            if g.player is Some {
                seq![GameEvent::Heal(Heal { target: Target::Entity(PLAYER), amount: heal })]
            } else {
                Seq::empty()
            },
            seq![Message::UsedPotion { name, heal }],
        ),
        UseOutcome::NoEffect => (h, Seq::empty(), seq![Message::NoEffect { name }]),
        UseOutcome::Scroll => (h, Seq::empty(), seq![Message::UsedScroll { name }]),
        UseOutcome::Key => (h, Seq::empty(), seq![Message::NoDoor { name }]),
        UseOutcome::Unusable => (h, Seq::empty(), seq![Message::CannotUse { name }]),
    }
}

/// What an equipment change sets off: a recomputation for the player, if
/// there is one, and a fresh listing of the backpack.
pub open spec fn after_equipment_change(g: GameView) -> Seq<GameEvent> {
    if g.player is Some {
        seq![
            GameEvent::EquipmentChanged(EquipmentChanged { entity: PLAYER }),
            GameEvent::ListInventory(ListInventoryEvent),
        ]
    } else {
        seq![GameEvent::ListInventory(ListInventoryEvent)]
    }
}

pub open spec fn equip_step(g: GameView, e: EquipEvent) -> (GameView, Seq<GameEvent>, Seq<LogView>) {
    let (eq, b, r) = equip_spec(g.equipment, g.backpack, e.slot@, e.index as int);
    match r {
        EquipOutcome::UnknownSlot => (g, Seq::empty(), seq![Message::UnknownSlot(e.slot@)]),
        EquipOutcome::OutOfRange => (g, Seq::empty(), seq![Message::IndexOutOfRange]),
        EquipOutcome::EmptyBackpackSlot => (g, Seq::empty(), seq![Message::EmptyBackpackSlot]),
        EquipOutcome::BackpackFull => (g, Seq::empty(), seq![Message::SwapBlocked]),
        EquipOutcome::Equipped(s) => (
            GameView { equipment: eq, backpack: b, ..g },
            after_equipment_change(g),
            seq![Message::Equipped { slot: s, name: g.backpack[e.index as int].proto.name }],
        ),
    }
}

pub open spec fn unequip_step(g: GameView, e: UnequipEvent) -> (GameView, Seq<GameEvent>, Seq<LogView>) {
    let (eq, b, r) = unequip_spec(g.equipment, g.backpack, e.slot@);
    match r {
        UnequipOutcome::UnknownSlot => (g, Seq::empty(), seq![Message::UnknownSlot(e.slot@)]),
        UnequipOutcome::SlotEmpty => (g, Seq::empty(), seq![Message::SlotEmpty(e.slot@)]),
        UnequipOutcome::BackpackFull => (g, Seq::empty(), seq![Message::UnequipBlocked]),
        UnequipOutcome::Unequipped(s, j) => (
            GameView { equipment: eq, backpack: b, ..g },
            after_equipment_change(g),
            seq![Message::Unequipped { slot: s, name: b[j as int].proto.name }],
        ),
    }
}

/// The effect of handling one event: the new state, the events it derives,
/// and the log lines it emits.
pub open spec fn step(g: GameView, ev: GameEvent) -> (GameView, Seq<GameEvent>, Seq<LogView>) {
    match ev {
        GameEvent::GainExp(e) => gain_step(g, e),
        GameEvent::TakeDamage(e) => damage_step(g, e),
        GameEvent::Heal(e) => heal_step(g, e),
        GameEvent::Death(_) => (g, Seq::empty(), seq![Message::Died]),
        GameEvent::LevelUp(e) => (g, Seq::empty(), seq![Message::ReachedLevel(e.new_level)]),
        GameEvent::EquipmentChanged(e) => (
            g,
            seq![GameEvent::RecalculateStats(RecalculateStats { entity: e.entity })],
            Seq::empty(),
        ),
        GameEvent::RecalculateStats(e) => recalc_step(g, e),
        GameEvent::ShowStats(e) => show_step(g, e),
        GameEvent::Give(e) => give_step(g, e),
        GameEvent::ListInventory(_) => list_step(g),
        GameEvent::Use(e) => use_step(g, e),
        GameEvent::Equip(e) => equip_step(g, e),
        GameEvent::Unequip(e) => unequip_step(g, e),
    }
}

/// How many generations of further events an event can still set off.
pub open spec fn weight(ev: GameEvent) -> nat {
    match ev {
        GameEvent::Equip(_) | GameEvent::Unequip(_) => 2,
        GameEvent::GainExp(_) | GameEvent::TakeDamage(_) | GameEvent::Use(_)
        | GameEvent::EquipmentChanged(_) => 1,
        _ => 0,
    }
}

/// Total weight of a queue of events.
pub open spec fn queue_weight(q: Seq<GameEvent>) -> nat
    decreases q.len(),
{
    if q.len() == 0 {
        0
    } else {
        weight(q[0]) + queue_weight(q.drop_first())
    }
}

/// The weight of two queues one after the other is the sum of theirs.
pub proof fn lemma_queue_weight_concat(a: Seq<GameEvent>, b: Seq<GameEvent>)
    ensures
        queue_weight(a + b) == queue_weight(a) + queue_weight(b),
    decreases a.len(),
{
    if a.len() > 0 {
        assert((a + b).drop_first() =~= a.drop_first() + b);
        lemma_queue_weight_concat(a.drop_first(), b);
    }
}

/// The events one event derives weigh less than it, and an event of weight
/// zero derives none.
pub proof fn lemma_step_lighter(g: GameView, ev: GameEvent)
    ensures
        queue_weight(step(g, ev).1) < weight(ev) || (weight(ev) == 0 && step(g, ev).1.len() == 0),
{
    let d = step(g, ev).1;
    match ev {
        GameEvent::GainExp(e) => {
            assert forall|k: int| 0 <= k <= d.len() implies queue_weight(#[trigger] d.skip(k)) == 0 by {
                lemma_level_ups_weightless(d, k);
            }
            assert(d.skip(0) =~= d);
        },
        _ => {
            reveal_with_fuel(queue_weight, 3);
        },
    }
}

/// A queue of level-up notifications weighs nothing.
proof fn lemma_level_ups_weightless(d: Seq<GameEvent>, k: int)
    requires
        0 <= k <= d.len(),
        forall|i: int| 0 <= i < d.len() ==> #[trigger] d[i] matches GameEvent::LevelUp(_),
    ensures
        queue_weight(d.skip(k)) == 0,
    decreases d.len() - k,
{
    if k < d.len() {
        lemma_level_ups_weightless(d, k + 1);
        assert(d.skip(k).drop_first() =~= d.skip(k + 1));
    }
}

/// The state and log after handling `q` and everything it sets off, first in first out.
pub open spec fn settle(g: GameView, q: Seq<GameEvent>) -> (GameView, Seq<LogView>)
    decreases queue_weight(q), q.len(),
    via settle_decreases
{
    if q.len() == 0 {
        (g, Seq::empty())
    } else {
        let (g1, d, l) = step(g, q[0]);
        let (g2, rest) = settle(g1, q.drop_first() + d);
        (g2, l + rest)
    }
}

#[via_fn]
proof fn settle_decreases(g: GameView, q: Seq<GameEvent>) {
    if q.len() > 0 {
        let (g1, d, l) = step(g, q[0]);
        lemma_step_lighter(g, q[0]);
        lemma_queue_weight_concat(q.drop_first(), d);
        if weight(q[0]) == 0 {
            assert(d =~= Seq::empty());
            assert(q.drop_first() + d =~= q.drop_first());
        }
    }
}

impl Game {
    /// The backpack keeps its slot count and the player, if any, is well formed.
    pub open spec fn wf(&self) -> bool {
        &&& self.backpack.wf()
        &&& self.player matches Some(p) ==> p.wf()
    }

    /// Whether an event for `t` reaches the player.
    fn reaches_player(&self, t: Target) -> (r: bool)
        ensures
            r == targets_player(self@, t),
    {
        self.player.is_some() && match t {
            Target::CurrentPlayer => true,
            Target::Entity(id) => id == PLAYER,
        }
    }

    /// Adds experience to the player; one level-up notification follows per level gained.
    pub fn handle_gain_exp(&mut self, e: &GainExp, log: &mut Vec<LogEvent>) -> (d: Vec<GameEvent>)
        requires
            old(self).wf(),
        ensures
            final(self).wf(),
            final(self)@ == gain_step(old(self)@, *e).0,
            d@ == gain_step(old(self)@, *e).1,
            log_view(final(log)@) == log_view(old(log)@) + gain_step(old(self)@, *e).2,
    {
        let mut d: Vec<GameEvent> = Vec::new();
        if !self.reaches_player(e.target) {
            assert(log_view(log@) =~= log_view(old(log)@) + gain_step(old(self)@, *e).2);
            return d;
        }
        let mut p = match self.player {
            Some(p) => p,
            None => return d,
        };
        let from = p.stats.lv;
        proof {
            lemma_settle_levels(from as int, p.stats.exp + e.amount);
        }
        if !p.gain_exp(e.amount) {
            emit(log, Message::NumberTooLarge);
            return d;
        }
        self.player = Some(p);
        emit(log, Message::GainedExp(e.amount));
        if p.stats.lv > from {
            emit(log, Message::LeveledUp { from, to: p.stats.lv });
        }
        let mut l: i32 = from;
        while l < p.stats.lv
            invariant
                from <= l <= p.stats.lv,
                d@ =~= level_ups(from as int, l - from),
            decreases p.stats.lv - l,
        {
            l = l + 1;
            d.push(GameEvent::LevelUp(LevelUp { entity: PLAYER, new_level: l }));
        }
        assert(log_view(log@) =~= log_view(old(log)@) + gain_step(old(self)@, *e).2);
        d
    }

    /// Deals damage to the player; a death notification follows when hp reaches zero.
    pub fn handle_take_damage(&mut self, e: &TakeDamage, log: &mut Vec<LogEvent>) -> (d: Vec<
        GameEvent,
    >)
        requires
            old(self).wf(),
        ensures
            final(self).wf(),
            final(self)@ == damage_step(old(self)@, *e).0,
            d@ == damage_step(old(self)@, *e).1,
            log_view(final(log)@) == log_view(old(log)@) + damage_step(old(self)@, *e).2,
    {
        let mut d: Vec<GameEvent> = Vec::new();
        if !self.reaches_player(e.target) {
            assert(log_view(log@) =~= log_view(old(log)@) + damage_step(old(self)@, *e).2);
            return d;
        }
        let mut p = match self.player {
            Some(p) => p,
            None => return d,
        };
        match p.take_damage(e.damage) {
            None => {
                emit(log, Message::NumberTooLarge);
            },
            Some(dead) => {
                self.player = Some(p);
                emit(log, Message::Damaged { damage: e.damage, hp: p.stats.hp, max_hp: p.stats.max_hp });
                if dead {
                    d.push(GameEvent::Death(Death { entity: PLAYER }));
                }
            },
        }
        assert(log_view(log@) =~= log_view(old(log)@) + damage_step(old(self)@, *e).2);
        assert(d@ =~= damage_step(old(self)@, *e).1);
        d
    }

    /// Heals the player; a log line follows only if hp actually rose.
    pub fn handle_heal(&mut self, e: &Heal, log: &mut Vec<LogEvent>)
        requires
            old(self).wf(),
        ensures
            final(self).wf(),
            final(self)@ == heal_step(old(self)@, *e).0,
            heal_step(old(self)@, *e).1 == Seq::<GameEvent>::empty(),
            log_view(final(log)@) == log_view(old(log)@) + heal_step(old(self)@, *e).2,
    {
        if !self.reaches_player(e.target) {
            assert(log_view(log@) =~= log_view(old(log)@) + heal_step(old(self)@, *e).2);
            return;
        }
        let mut p = match self.player {
            Some(p) => p,
            None => return,
        };
        let before = p.stats.hp;
        if !p.heal(e.amount) {
            emit(log, Message::NumberTooLarge);
            assert(log_view(log@) =~= log_view(old(log)@) + heal_step(old(self)@, *e).2);
            return;
        }
        self.player = Some(p);
        let healed: i64 = p.stats.hp as i64 - before as i64;
        if healed > 0 {
            emit(log, Message::Healed { amount: healed as i32, hp: p.stats.hp, max_hp: p.stats.max_hp });
        }
        assert(log_view(log@) =~= log_view(old(log)@) + heal_step(old(self)@, *e).2);
    }

    /// Reports the player's stats, or that there is no player.
    pub fn show_stats(&self, e: &ShowStats, log: &mut Vec<LogEvent>)
        ensures
            log_view(final(log)@) == log_view(old(log)@) + show_step(self@, *e).2,
    {
        if self.reaches_player(e.target) {
            match self.player {
                Some(p) => emit(log, Message::StatsReport(p.stats)),
                None => {},
            }
        } else {
            emit(log, Message::NoStats);
        }
    }

    /// An equipment change asks for the entity's stats to be recomputed.
    pub fn handle_equipment_changed(&self, e: &EquipmentChanged) -> (d: Vec<GameEvent>)
        ensures
            d@ == seq![GameEvent::RecalculateStats(RecalculateStats { entity: e.entity })],
    {
        let mut d: Vec<GameEvent> = Vec::new();
        d.push(GameEvent::RecalculateStats(RecalculateStats { entity: e.entity }));
        assert(d@ =~= seq![GameEvent::RecalculateStats(RecalculateStats { entity: e.entity })]);
        d
    }

    /// Recomputes the player's stats from its floor and the equipment.
    pub fn recalculate_stats(&mut self, e: &RecalculateStats, log: &mut Vec<LogEvent>)
        requires
            old(self).wf(),
        ensures
            final(self).wf(),
            final(self)@ == recalc_step(old(self)@, *e).0,
            log_view(final(log)@) == log_view(old(log)@) + recalc_step(old(self)@, *e).2,
    {
        if !self.reaches_player(Target::Entity(e.entity)) {
            assert(log_view(log@) =~= log_view(old(log)@) + recalc_step(old(self)@, *e).2);
            return;
        }
        let mut p = match self.player {
            Some(p) => p,
            None => return,
        };
        if p.recalculate_stats(&self.equipment) {
            self.player = Some(p);
            assert(log_view(log@) =~= log_view(old(log)@) + recalc_step(old(self)@, *e).2);
        } else {
            emit(log, Message::NumberTooLarge);
        }
    }

    /// Gives items from the catalog: merged into a stack of the same id,
    /// else put into the first empty slot, else dropped with a warning.
    pub fn give_item(&mut self, e: &GiveItemEvent, log: &mut Vec<LogEvent>)
        requires
            old(self).wf(),
        ensures
            final(self).wf(),
            final(self)@ == give_step(old(self)@, *e).0,
            log_view(final(log)@) == log_view(old(log)@) + give_step(old(self)@, *e).2,
    {
        let list = match &self.assets.list {
            Some(list) => list,
            None => {
                assert(log_view(log@) =~= log_view(old(log)@) + give_step(old(self)@, *e).2);
                return;
            },
        };
        proof {
            crate::items::lemma_find_in_range(list@, e.id@, e.id@, 0);
        }
        match list.find_by_id(e.id.as_str()) {
            None => {
                emit(log, Message::UnknownItem(e.id.clone()));
            },
            Some(k) => {
                let proto = list.items[k].clone();
                let name = proto.name.clone();
                let r = self.backpack.give(&proto, e.count);
                match r {
                    GiveOutcome::Full => emit(log, Message::BackpackFull { name }),
                    GiveOutcome::Overflow => emit(log, Message::StackTooLarge { name }),
                    _ => emit(log, Message::GotItem { name, count: e.count }),
                }
            },
        }
        assert(log_view(log@) =~= log_view(old(log)@) + give_step(old(self)@, *e).2);
    }

    /// Lists the occupied backpack slots in slot order: index, name, count and id.
    pub fn print_inventory(&self, log: &mut Vec<LogEvent>)
        requires
            self.wf(),
        ensures
            log_view(final(log)@) == log_view(old(log)@) + list_step(self@).2,
    {
        let occ = self.backpack.occupied_slots();
        if occ.len() == 0 {
            emit(log, Message::InventoryEmpty);
            return;
        }
        proof {
            crate::inventory::lemma_occupied_in_range(self.backpack@);
        }
        let mut k: usize = 0;
        while k < occ.len()
            invariant
                self.wf(),
                occ@ == occupied(self.backpack@),
                forall|i: int| 0 <= i < occ@.len() ==> (#[trigger] occ@[i]) < self.backpack@.len(),
                k <= occ@.len(),
                log_view(log@) =~= log_view(old(log)@) + inventory_lines(self.backpack@, occ@.take(k as int)),
            decreases occ@.len() - k,
        {
            let i = occ[k];
            let st = &self.backpack.slots[i];
            emit(log, Message::InventoryLine {
                index: i,
                name: st.proto.name.clone(),
                count: st.count,
                id: st.proto.id.clone(),
            });
            assert(occ@.take(k as int + 1) =~= occ@.take(k as int).push(i));
            k += 1;
        }
        assert(occ@.take(k as int) =~= occ@);
    }

    /// Uses the item of a backpack slot; a drunk potion owes the player a heal.
    pub fn use_item(&mut self, e: &UseItemEvent, log: &mut Vec<LogEvent>) -> (d: Vec<GameEvent>)
        requires
            old(self).wf(),
        ensures
            final(self).wf(),
            final(self)@ == use_step(old(self)@, *e).0,
            d@ == use_step(old(self)@, *e).1,
            log_view(final(log)@) == log_view(old(log)@) + use_step(old(self)@, *e).2,
    {
        let mut d: Vec<GameEvent> = Vec::new();
        let name = if e.index < self.backpack.slots.len() {
            self.backpack.slots[e.index].proto.name.clone()
        } else {
            String::new()
        };
        let r = self.backpack.use_item(e.index);
        match r {
            UseOutcome::OutOfRange => emit(log, Message::IndexOutOfRange),
            UseOutcome::Empty => emit(log, Message::EmptyBackpackSlot),
            UseOutcome::Potion(heal) => {
                emit(log, Message::UsedPotion { name, heal });
                if self.player.is_some() {
                    d.push(GameEvent::Heal(Heal { target: Target::Entity(PLAYER), amount: heal }));
                }
            },
            UseOutcome::NoEffect => emit(log, Message::NoEffect { name }),
            UseOutcome::Scroll => emit(log, Message::UsedScroll { name }),
            UseOutcome::Key => emit(log, Message::NoDoor { name }),
            UseOutcome::Unusable => emit(log, Message::CannotUse { name }),
        }
        assert(log_view(log@) =~= log_view(old(log)@) + use_step(old(self)@, *e).2);
        assert(d@ =~= use_step(old(self)@, *e).1);
        d
    }

    /// The events an equipment change sets off.
    fn equipment_changed(&self) -> (d: Vec<GameEvent>)
        ensures
            d@ == after_equipment_change(self@),
    {
        let mut d: Vec<GameEvent> = Vec::new();
        if self.player.is_some() {
            d.push(GameEvent::EquipmentChanged(EquipmentChanged { entity: PLAYER }));
        }
        d.push(GameEvent::ListInventory(ListInventoryEvent));
        assert(d@ =~= after_equipment_change(self@));
        d
    }

    /// Equips the item of a backpack slot into a named slot (all or nothing).
    pub fn equip_item(&mut self, e: &EquipEvent, log: &mut Vec<LogEvent>) -> (d: Vec<GameEvent>)
        requires
            old(self).wf(),
        ensures
            final(self).wf(),
            final(self)@ == equip_step(old(self)@, *e).0,
            d@ == equip_step(old(self)@, *e).1,
            log_view(final(log)@) == log_view(old(log)@) + equip_step(old(self)@, *e).2,
    {
        let name = if e.index < self.backpack.slots.len() {
            self.backpack.slots[e.index].proto.name.clone()
        } else {
            String::new()
        };
        let d = self.equipment_changed();
        let r = self.equipment.equip(&mut self.backpack, e.slot.as_str(), e.index);
        let d = match r {
            EquipOutcome::UnknownSlot => {
                emit(log, Message::UnknownSlot(e.slot.clone()));
                Vec::new()
            },
            EquipOutcome::OutOfRange => {
                emit(log, Message::IndexOutOfRange);
                Vec::new()
            },
            EquipOutcome::EmptyBackpackSlot => {
                emit(log, Message::EmptyBackpackSlot);
                Vec::new()
            },
            EquipOutcome::BackpackFull => {
                emit(log, Message::SwapBlocked);
                Vec::new()
            },
            EquipOutcome::Equipped(slot) => {
                emit(log, Message::Equipped { slot, name });
                d
            },
        };
        assert(log_view(log@) =~= log_view(old(log)@) + equip_step(old(self)@, *e).2);
        assert(d@ =~= equip_step(old(self)@, *e).1);
        d
    }

    /// Returns what a named slot holds to the first empty backpack slot.
    pub fn unequip_item(&mut self, e: &UnequipEvent, log: &mut Vec<LogEvent>) -> (d: Vec<GameEvent>)
        requires
            old(self).wf(),
        ensures
            final(self).wf(),
            final(self)@ == unequip_step(old(self)@, *e).0,
            d@ == unequip_step(old(self)@, *e).1,
            log_view(final(log)@) == log_view(old(log)@) + unequip_step(old(self)@, *e).2,
    {
        let d = self.equipment_changed();
        proof {
            crate::inventory::lemma_first_empty(self.backpack@, 0);
        }
        let r = self.equipment.unequip(&mut self.backpack, e.slot.as_str());
        let d = match r {
            UnequipOutcome::UnknownSlot => {
                emit(log, Message::UnknownSlot(e.slot.clone()));
                Vec::new()
            },
            UnequipOutcome::SlotEmpty => {
                emit(log, Message::SlotEmpty(e.slot.clone()));
                Vec::new()
            },
            UnequipOutcome::BackpackFull => {
                emit(log, Message::UnequipBlocked);
                Vec::new()
            },
            UnequipOutcome::Unequipped(slot, j) => {
                let name = self.backpack.slots[j].proto.name.clone();
                emit(log, Message::Unequipped { slot, name });
                d
            },
        };
        assert(log_view(log@) =~= log_view(old(log)@) + unequip_step(old(self)@, *e).2);
        assert(d@ =~= unequip_step(old(self)@, *e).1);
        d
    }

    /// Handles one event, returning the events it derives.
    pub fn handle(&mut self, ev: &GameEvent, log: &mut Vec<LogEvent>) -> (d: Vec<GameEvent>)
        requires
            old(self).wf(),
        ensures
            final(self).wf(),
            final(self)@ == step(old(self)@, *ev).0,
            d@ == step(old(self)@, *ev).1,
            log_view(final(log)@) == log_view(old(log)@) + step(old(self)@, *ev).2,
    {
        match ev {
            GameEvent::GainExp(e) => self.handle_gain_exp(e, log),
            GameEvent::TakeDamage(e) => self.handle_take_damage(e, log),
            GameEvent::Heal(e) => {
                self.handle_heal(e, log);
                Vec::new()
            },
            GameEvent::Death(_) => {
                emit(log, Message::Died);
                Vec::new()
            },
            GameEvent::LevelUp(e) => {
                emit(log, Message::ReachedLevel(e.new_level));
                Vec::new()
            },
            GameEvent::EquipmentChanged(e) => {
                assert(log_view(log@) =~= log_view(old(log)@) + step(old(self)@, *ev).2);
                self.handle_equipment_changed(e)
            },
            GameEvent::RecalculateStats(e) => {
                self.recalculate_stats(e, log);
                Vec::new()
            },
            GameEvent::ShowStats(e) => {
                self.show_stats(e, log);
                Vec::new()
            },
            GameEvent::Give(e) => {
                self.give_item(e, log);
                Vec::new()
            },
            GameEvent::ListInventory(_) => {
                self.print_inventory(log);
                Vec::new()
            },
            GameEvent::Use(e) => self.use_item(e, log),
            GameEvent::Equip(e) => self.equip_item(e, log),
            GameEvent::Unequip(e) => self.unequip_item(e, log),
        }
    }

    /// Routes an event and every event it sets off, first in first out,
    /// until none is left.
    pub fn dispatch(&mut self, ev: GameEvent, log: &mut Vec<LogEvent>)
        requires
            old(self).wf(),
        ensures
            final(self).wf(),
            final(self)@ == settle(old(self)@, seq![ev]).0,
            log_view(final(log)@) == log_view(old(log)@) + settle(old(self)@, seq![ev]).1,
    {
        let ghost target = settle(self@, seq![ev]);
        let mut queue: Vec<GameEvent> = Vec::new();
        queue.push(ev);
        let mut i: usize = 0;
        assert(queue@.skip(0) =~= seq![ev]);
        while i < queue.len()
            invariant
                self.wf(),
                i <= queue@.len(),
                settle(self@, queue@.skip(i as int)).0 == target.0,
                log_view(log@) + settle(self@, queue@.skip(i as int)).1 == log_view(old(log)@)
                    + target.1,
            decreases queue_weight(queue@.skip(i as int)), queue@.len() - i,
        {
            let ghost g = self@;
            let ghost q = queue@;
            let ghost l0 = log_view(log@);
            let mut d = self.handle(&queue[i], log);
            let ghost dv = d@;
            queue.append(&mut d);
            proof {
                let rest = q.skip(i as int);
                assert(rest[0] == q[i as int]);
                assert(queue@.skip(i as int + 1) =~= rest.drop_first() + dv);
                let (g1, d1, l1) = step(g, rest[0]);
                assert(settle(g, rest) == (settle(g1, rest.drop_first() + d1).0, l1 + settle(
                    g1,
                    rest.drop_first() + d1,
                ).1));
                assert(l0 + (l1 + settle(g1, rest.drop_first() + d1).1) =~= (l0 + l1) + settle(
                    g1,
                    rest.drop_first() + d1,
                ).1);
                lemma_step_lighter(g, rest[0]);
                lemma_queue_weight_concat(rest.drop_first(), d1);
                if weight(rest[0]) == 0 {
                    assert(d1 =~= Seq::<GameEvent>::empty());
                    assert(rest.drop_first() + d1 =~= rest.drop_first());
                }
            }
            i += 1;
        }
        assert(queue@.skip(i as int) =~= Seq::<GameEvent>::empty());
        assert(log_view(log@) + Seq::<LogView>::empty() =~= log_view(log@));
    }

    /// A game waiting to start: no catalog, no player, an empty backpack of
    /// the standard capacity and no equipment.
    pub fn new() -> (r: Self)
        ensures
            r.wf(),
            r@ == (GameView {
                state: AppState::Startup,
                catalog: None,
                player: None,
                backpack: Seq::new(CAPACITY as nat, |i: int| StackView { proto: crate::items::blank_item(), count: 0 }),
                equipment: EquipView { head: None, body: None, weapon: None, accessory: None },
            }),
    {
        Game {
            state: AppState::Startup,
            assets: ItemAssets { list: None },
            player: None,
            backpack: Backpack::new(CAPACITY),
            equipment: Equipment::new(),
        }
    }

    /// Startup hands over to loading the catalog.
    pub fn start_loading(&mut self)
        ensures
            final(self).wf() == old(self).wf(),
            final(self)@ == (GameView {
                state: if old(self).state == AppState::Startup {
                    AppState::Loading
                } else {
                    old(self).state
                },
                ..old(self)@
            }),
    {
        if self.state == AppState::Startup {
            self.state = AppState::Loading;
        }
    }

    /// The loader delivered the catalog: while loading, it is kept, the game
    /// starts and the player is spawned. Returns whether it was taken.
    pub fn check_loaded(&mut self, list: ItemList) -> (r: bool)
        requires
            old(self).wf(),
        ensures
            final(self).wf(),
            r == (old(self).state == AppState::Loading),
            r ==> final(self)@ == (GameView {
                state: AppState::InGame,
                catalog: Some(list@),
                player: Some(Player::spawn_spec()),
                ..old(self)@
            }),
            !r ==> final(self)@ == old(self)@,
    {
        if self.state != AppState::Loading {
            return false;
        }
        self.assets.list = Some(list);
        self.state = AppState::InGame;
        self.player = Some(spawn_player());
        true
    }

    /// Logs the catalog, or the entry that answers a query.
    pub fn show_items(&self, token: Option<String>, log: &mut Vec<LogEvent>)
        ensures
            log_view(final(log)@) == log_view(old(log)@) + items_lines(self@, token),
    {
        let list = match &self.assets.list {
            Some(list) => list,
            None => {
                assert(log_view(log@) =~= log_view(old(log)@) + items_lines(self@, token));
                return;
            },
        };
        match token {
            None => {
                let mut k: usize = 0;
                while k < list.items.len()
                    invariant
                        k <= list@.len(),
                        self.assets.list == Some(*list),
                        token is None,
                        log_view(log@) =~= log_view(old(log)@) + catalog_lines(list@.take(k as int)),
                    decreases list@.len() - k,
                {
                    let e = &list.items[k];
                    emit(log, Message::CatalogLine {
                        uuid: item_uuid(e.id.as_str()),
                        id: e.id.clone(),
                        name: e.name.clone(),
                    });
                    assert(list@.take(k as int + 1) =~= list@.take(k as int).push(list@[k as int]));
                    k += 1;
                }
                assert(list@.take(k as int) =~= list@);
            },
            Some(t) => {
                let low = lowercase(t.as_str());
                proof {
                    lemma_find_in_range(list@, low@, low@, 0);
                }
                match list.find_by_token(low.as_str()) {
                    Some(k) => {
                        let e = &list.items[k];
                        emit(log, Message::ItemDetail {
                            uuid: item_uuid(e.id.as_str()),
                            id: e.id.clone(),
                            name: e.name.clone(),
                            atk: e.atk,
                            heal: e.heal,
                        });
                    },
                    None => emit(log, Message::NoMatchingItem),
                }
                assert(log_view(log@) =~= log_view(old(log)@) + items_lines(self@, Some(t)));
            },
        }
    }

    /// Logs the game state, the catalog size, the weapon and the backpack.
    pub fn show_status(&self, log: &mut Vec<LogEvent>)
        requires
            self.wf(),
        ensures
            log_view(final(log)@) == log_view(old(log)@) + status_lines(self@),
    {
        let n = match &self.assets.list {
            Some(list) => list.items.len(),
            None => 0,
        };
        emit(log, Message::StatusHeader { state: self.state, items_loaded: n });
        match &self.equipment.weapon {
            Some(w) => emit(log, Message::Weapon { name: w.proto.name.clone(), id: w.proto.id.clone() }),
            None => emit(log, Message::NoWeapon),
        }
        self.print_inventory(log);
        assert(log_view(log@) =~= log_view(old(log)@) + status_lines(self@));
    }

    /// Carries out one command. Commands count only once the game has
    /// started; returns whether the operator asked to exit.
    pub fn execute(&mut self, cmd: Command, log: &mut Vec<LogEvent>) -> (exit: bool)
        requires
            old(self).wf(),
        ensures
            final(self).wf(),
            (final(self)@, log_view(final(log)@), exit) == ({
                let (g, l, x) = execute_spec(old(self)@, cmd);
                (g, log_view(old(log)@) + l, x)
            }),
    {
        if self.state != AppState::InGame {
            assert(log_view(log@) =~= log_view(old(log)@) + Seq::<LogView>::empty());
            return false;
        }
        let ghost c = cmd;
        match cmd {
            Command::Help => {
                emit(log, Message::Help);
                false
            },
            Command::Status => {
                self.show_status(log);
                false
            },
            Command::Exit => {
                emit(log, Message::Farewell);
                true
            },
            Command::Items(t) => {
                self.show_items(t, log);
                false
            },
            Command::Unsupported(o) => {
                emit(log, Message::Unsupported(o));
                false
            },
            Command::Inventory => {
                self.dispatch(GameEvent::ListInventory(ListInventoryEvent), log);
                false
            },
            Command::Stats => {
                self.dispatch(GameEvent::ShowStats(ShowStats { target: Target::CurrentPlayer }), log);
                false
            },
            Command::Give { id, count } => {
                self.dispatch(GameEvent::Give(GiveItemEvent { id, count }), log);
                false
            },
            Command::Equip { slot, index } => {
                self.dispatch(GameEvent::Equip(EquipEvent { slot, index }), log);
                false
            },
            Command::Unequip { slot } => {
                self.dispatch(GameEvent::Unequip(UnequipEvent { slot }), log);
                false
            },
            Command::Use { index } => {
                self.dispatch(GameEvent::Use(UseItemEvent { index }), log);
                false
            },
            Command::GainExp { amount } => {
                self.dispatch(GameEvent::GainExp(GainExp { target: Target::CurrentPlayer, amount }), log);
                false
            },
            Command::TakeDamage { damage } => {
                self.dispatch(GameEvent::TakeDamage(TakeDamage { target: Target::CurrentPlayer, damage }), log);
                false
            },
            Command::Heal { amount } => {
                self.dispatch(GameEvent::Heal(Heal { target: Target::CurrentPlayer, amount }), log);
                false
            },
        }
    }

    /// Reads one operator line and carries it out; returns whether the
    /// operator asked to exit.
    pub fn run_line(&mut self, line: &str, log: &mut Vec<LogEvent>) -> (exit: bool)
        requires
            old(self).wf(),
        ensures
            final(self).wf(),
            exists|c: Command|
                {
                    &&& parses_to(words_of(line@), c)
                    &&& (final(self)@, log_view(final(log)@), exit) == ({
                        let (g, l, x) = execute_spec(old(self)@, c);
                        (g, log_view(old(log)@) + l, x)
                    })
                },
    {
        let cmd = parse_command(line);
        let ghost c = cmd;
        let exit = self.execute(cmd, log);
        assert(parses_to(words_of(line@), c));
        exit
    }
}

/// One catalog line per entry: its UUID text, id and name.
pub open spec fn catalog_lines(items: Seq<ItemView>) -> Seq<LogView> {
    items.map_values(|e: ItemView| Message::CatalogLine { uuid: uuid_text_of(e.id), id: e.id, name: e.name })
}

/// What `items` logs: the whole catalog, or the first entry that answers the
/// lower-cased query.
pub open spec fn items_lines(g: GameView, token: Option<String>) -> Seq<LogView> {
    match g.catalog {
        None => Seq::empty(),
        Some(items) => match token {
            None => catalog_lines(items),
            Some(t) => match find_token_from(items, lower_of(t@), 0) {
                Some(k) => seq![Message::ItemDetail {
                    uuid: uuid_text_of(items[k].id),
                    id: items[k].id,
                    name: items[k].name,
                    atk: items[k].atk,
                    heal: items[k].heal,
                }],
                None => seq![Message::NoMatchingItem],
            },
        },
    }
}

/// What `status` logs: state and catalog size, the weapon, then the backpack.
pub open spec fn status_lines(g: GameView) -> Seq<LogView> {
    seq![
        Message::StatusHeader {
            state: g.state,
            items_loaded: match g.catalog {
                Some(items) => items.len() as usize,
                None => 0,
            },
        },
        match g.equipment.weapon {
            Some(w) => Message::Weapon { name: w.proto.name, id: w.proto.id },
            None => Message::NoWeapon,
        },
    ] + list_step(g).2
}

/// The event a world command turns into.
pub open spec fn event_of(c: Command) -> GameEvent {
    match c {
        Command::Stats => GameEvent::ShowStats(ShowStats { target: Target::CurrentPlayer }),
        Command::Give { id, count } => GameEvent::Give(GiveItemEvent { id, count }),
        Command::Equip { slot, index } => GameEvent::Equip(EquipEvent { slot, index }),
        Command::Unequip { slot } => GameEvent::Unequip(UnequipEvent { slot }),
        Command::Use { index } => GameEvent::Use(UseItemEvent { index }),
        Command::GainExp { amount } => GameEvent::GainExp(GainExp { target: Target::CurrentPlayer, amount }),
        Command::TakeDamage { damage } => GameEvent::TakeDamage(TakeDamage { target: Target::CurrentPlayer, damage }),
        Command::Heal { amount } => GameEvent::Heal(Heal { target: Target::CurrentPlayer, amount }),
        _ => GameEvent::ListInventory(ListInventoryEvent),
    }
}

/// The effect of a command: new state, log lines, and whether to exit.
/// Before the game starts every command is dropped.
pub open spec fn execute_spec(g: GameView, c: Command) -> (GameView, Seq<LogView>, bool) {
    if g.state != AppState::InGame {
        (g, Seq::empty(), false)
    } else {
        match c {
            Command::Help => (g, seq![Message::Help], false),
            Command::Status => (g, status_lines(g), false),
            Command::Exit => (g, seq![Message::Farewell], true),
            Command::Items(t) => (g, items_lines(g, t), false),
            Command::Unsupported(o) => (g, seq![Message::Unsupported(o@)], false),
            _ => {
                let (h, l) = settle(g, seq![event_of(c)]);
                (h, l, false)
            },
        }
    }
}

} // verus!
