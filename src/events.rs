use vstd::prelude::*;
use crate::character::Stats;
use crate::equipment::EquipSlot;

verus! {

/// The entity id of the player, the one character the core manages.
pub const PLAYER: u64 = 0;

/// Whom a character event is for.
#[derive(Debug, Clone, Copy, PartialEq, Eq, Structural)]
pub enum Target {
    /// A named entity.
    Entity(u64),
    /// Whoever the current player is; dropped when there is none.
    CurrentPlayer,
}

/// The equipment changed; the stats must be recomputed.
#[derive(Debug, Clone, Copy, PartialEq, Eq, Structural)]
pub struct EquipmentChanged {
    pub entity: u64,
}

/// Experience to add.
#[derive(Debug, Clone, Copy, PartialEq, Eq, Structural)]
pub struct GainExp {
    pub target: Target,
    pub amount: i32,
}

/// Damage to take.
#[derive(Debug, Clone, Copy, PartialEq, Eq, Structural)]
pub struct TakeDamage {
    pub target: Target,
    pub damage: i32,
}

/// Notification: the entity's hp reached zero.
#[derive(Debug, Clone, Copy, PartialEq, Eq, Structural)]
pub struct Death {
    pub entity: u64,
}

/// Notification: the entity reached a new level.
#[derive(Debug, Clone, Copy, PartialEq, Eq, Structural)]
pub struct LevelUp {
    pub entity: u64,
    pub new_level: i32,
}

/// Hp to restore.
#[derive(Debug, Clone, Copy, PartialEq, Eq, Structural)]
pub struct Heal {
    pub target: Target,
    pub amount: i32,
}

/// Recompute the entity's stats from its floor and the equipment.
#[derive(Debug, Clone, Copy, PartialEq, Eq, Structural)]
pub struct RecalculateStats {
    pub entity: u64,
}

/// Report the stats of an entity.
#[derive(Debug, Clone, Copy, PartialEq, Eq, Structural)]
pub struct ShowStats {
    pub target: Target,
}

/// Give `count` of the catalog item `id` (matched up to ASCII case).
#[derive(Debug)]
pub struct GiveItemEvent {
    pub id: String,
    pub count: u32,
}

/// List the occupied backpack slots.
#[derive(Debug, Clone, Copy, PartialEq, Eq, Structural)]
pub struct ListInventoryEvent;

/// Use the item in a backpack slot.
#[derive(Debug, Clone, Copy, PartialEq, Eq, Structural)]
pub struct UseItemEvent {
    pub index: usize,
}

/// Equip the item of a backpack slot into a named equipment slot.
#[derive(Debug)]
pub struct EquipEvent {
    pub slot: String,
    pub index: usize,
}

/// Take off what a named equipment slot holds.
#[derive(Debug)]
pub struct UnequipEvent {
    pub slot: String,
}

/// Every event the router carries: intents and derived notifications.
#[derive(Debug)]
pub enum GameEvent {
    GainExp(GainExp),
    TakeDamage(TakeDamage),
    Heal(Heal),
    Death(Death),
    LevelUp(LevelUp),
    EquipmentChanged(EquipmentChanged),
    RecalculateStats(RecalculateStats),
    ShowStats(ShowStats),
    Give(GiveItemEvent),
    ListInventory(ListInventoryEvent),
    Use(UseItemEvent),
    Equip(EquipEvent),
    Unequip(UnequipEvent),
}

/// Game states; commands are handled in `InGame` only.
#[derive(Debug, Clone, Copy, PartialEq, Eq, Structural)]
pub enum AppState {
    Startup,
    Loading,
    InGame,
    Shutdown,
}

/// One observable effect, ready to be rendered as a line of the log.
/// `S` is the text type: `String` at run time, `Seq<char>` in contracts.
#[derive(Debug)]
pub enum Message<S> {
    GainedExp(i32),
    LeveledUp { from: i32, to: i32 },
    /// The level-up notification, one per level gained.
    ReachedLevel(i32),
    Damaged { damage: i32, hp: i32, max_hp: i32 },
    /// The death notification.
    Died,
    Healed { amount: i32, hp: i32, max_hp: i32 },
    StatsReport(Stats),
    NoStats,
    /// A stat would leave the range of `i32`: the event was dropped.
    NumberTooLarge,
    GotItem { name: S, count: u32 },
    BackpackFull { name: S },
    StackTooLarge { name: S },
    UnknownItem(S),
    InventoryLine { index: usize, name: S, count: u32, id: S },
    InventoryEmpty,
    IndexOutOfRange,
    EmptyBackpackSlot,
    UnknownSlot(S),
    Equipped { slot: EquipSlot, name: S },
    SwapBlocked,
    Unequipped { slot: EquipSlot, name: S },
    SlotEmpty(S),
    UnequipBlocked,
    UsedPotion { name: S, heal: i32 },
    NoEffect { name: S },
    UsedScroll { name: S },
    NoDoor { name: S },
    CannotUse { name: S },
    Help,
    StatusHeader { state: AppState, items_loaded: usize },
    Weapon { name: S, id: S },
    NoWeapon,
    CatalogLine { uuid: S, id: S, name: S },
    ItemDetail { uuid: S, id: S, name: S, atk: i32, heal: i32 },
    NoMatchingItem,
    Unsupported(S),
    Farewell,
}

/// A log line as the library emits it.
pub type LogEvent = Message<String>;

/// The mathematical content of a log line.
pub type LogView = Message<Seq<char>>;

impl View for Message<String> {
    type V = Message<Seq<char>>;

    open spec fn view(&self) -> Message<Seq<char>> {
        match *self {
            Message::GainedExp(a) => Message::GainedExp(a),
            Message::LeveledUp { from, to } => Message::LeveledUp { from, to },
            Message::ReachedLevel(l) => Message::ReachedLevel(l),
            Message::Damaged { damage, hp, max_hp } => Message::Damaged { damage, hp, max_hp },
            Message::Died => Message::Died,
            Message::Healed { amount, hp, max_hp } => Message::Healed { amount, hp, max_hp },
            Message::StatsReport(s) => Message::StatsReport(s),
            Message::NoStats => Message::NoStats,
            Message::NumberTooLarge => Message::NumberTooLarge,
            Message::GotItem { name, count } => Message::GotItem { name: name@, count },
            Message::BackpackFull { name } => Message::BackpackFull { name: name@ },
            Message::StackTooLarge { name } => Message::StackTooLarge { name: name@ },
            Message::UnknownItem(id) => Message::UnknownItem(id@),
            Message::InventoryLine { index, name, count, id } => Message::InventoryLine {
                index,
                name: name@,
                count,
                id: id@,
            },
            Message::InventoryEmpty => Message::InventoryEmpty,
            Message::IndexOutOfRange => Message::IndexOutOfRange,
            Message::EmptyBackpackSlot => Message::EmptyBackpackSlot,
            Message::UnknownSlot(s) => Message::UnknownSlot(s@),
            Message::Equipped { slot, name } => Message::Equipped { slot, name: name@ },
            Message::SwapBlocked => Message::SwapBlocked,
            Message::Unequipped { slot, name } => Message::Unequipped { slot, name: name@ },
            Message::SlotEmpty(s) => Message::SlotEmpty(s@),
            Message::UnequipBlocked => Message::UnequipBlocked,
            Message::UsedPotion { name, heal } => Message::UsedPotion { name: name@, heal },
            Message::NoEffect { name } => Message::NoEffect { name: name@ },
            Message::UsedScroll { name } => Message::UsedScroll { name: name@ },
            Message::NoDoor { name } => Message::NoDoor { name: name@ },
            Message::CannotUse { name } => Message::CannotUse { name: name@ },
            Message::Help => Message::Help,
            Message::StatusHeader { state, items_loaded } => Message::StatusHeader {
                state,
                items_loaded,
            },
            Message::Weapon { name, id } => Message::Weapon { name: name@, id: id@ },
            Message::NoWeapon => Message::NoWeapon,
            Message::CatalogLine { uuid, id, name } => Message::CatalogLine {
                uuid: uuid@,
                id: id@,
                name: name@,
            },
            Message::ItemDetail { uuid, id, name, atk, heal } => Message::ItemDetail {
                uuid: uuid@,
                id: id@,
                name: name@,
                atk,
                heal,
            },
            Message::NoMatchingItem => Message::NoMatchingItem,
            Message::Unsupported(s) => Message::Unsupported(s@),
            Message::Farewell => Message::Farewell,
        }
    }
}

/// The views of a list of log lines.
pub open spec fn log_view(v: Seq<LogEvent>) -> Seq<LogView> {
    v.map_values(|m: LogEvent| m@)
}

/// Appends one line to a log.
pub fn emit(log: &mut Vec<LogEvent>, m: LogEvent)
    ensures
        log_view(final(log)@) == log_view(old(log)@).push(m@),
{
    let ghost v = m@;
    log.push(m);
    assert(log_view(log@) =~= log_view(old(log)@).push(v));
}

} // verus!
