use vstd::prelude::*;
use crate::inventory::{first_empty_from, lemma_first_empty, Backpack};
use crate::items::{ItemStack, StackView};
use crate::text::text_eq;

verus! {

/// One of the four equipment slots.
#[derive(Debug, Clone, Copy, PartialEq, Eq, Structural)]
pub enum EquipSlot {
    Head,
    Body,
    Weapon,
    Accessory,
}

/// The slot a name denotes: "head", "body", "weapon" or "accessory".
pub open spec fn slot_named(name: Seq<char>) -> Option<EquipSlot> {
    if name == "head"@ {
        Some(EquipSlot::Head)
    } else if name == "body"@ {
        Some(EquipSlot::Body)
    } else if name == "weapon"@ {
        Some(EquipSlot::Weapon)
    } else if name == "accessory"@ {
        Some(EquipSlot::Accessory)
    } else {
        None
    }
}

impl EquipSlot {
    /// The slot a name denotes, if any.
    pub fn from_name(name: &str) -> (r: Option<EquipSlot>)
        ensures
            r == slot_named(name@),
    {
        if text_eq(name, "head") {
            Some(EquipSlot::Head)
        } else if text_eq(name, "body") {
            Some(EquipSlot::Body)
        } else if text_eq(name, "weapon") {
            Some(EquipSlot::Weapon)
        } else if text_eq(name, "accessory") {
            Some(EquipSlot::Accessory)
        } else {
            None
        }
    }
}

/// The mathematical content of the equipment: what each slot holds.
pub struct EquipView {
    pub head: Option<StackView>,
    pub body: Option<StackView>,
    pub weapon: Option<StackView>,
    pub accessory: Option<StackView>,
}

impl EquipView {
    pub open spec fn get(self, s: EquipSlot) -> Option<StackView> {
        match s {
            EquipSlot::Head => self.head,
            EquipSlot::Body => self.body,
            EquipSlot::Weapon => self.weapon,
            EquipSlot::Accessory => self.accessory,
        }
    }

    pub open spec fn set(self, s: EquipSlot, v: Option<StackView>) -> EquipView {
        match s {
            EquipSlot::Head => EquipView { head: v, ..self },
            EquipSlot::Body => EquipView { body: v, ..self },
            EquipSlot::Weapon => EquipView { weapon: v, ..self },
            EquipSlot::Accessory => EquipView { accessory: v, ..self },
        }
    }
}

/// The view of an optional stack.
pub open spec fn opt_view(o: Option<ItemStack>) -> Option<StackView> {
    match o {
        Some(st) => Some(st@),
        None => None,
    }
}

/// The four equipment slots, each empty or holding one item.
#[derive(Debug)]
pub struct Equipment {
    pub head: Option<ItemStack>,
    pub body: Option<ItemStack>,
    pub weapon: Option<ItemStack>,
    pub accessory: Option<ItemStack>,
}

impl View for Equipment {
    type V = EquipView;

    open spec fn view(&self) -> EquipView {
        EquipView {
            head: opt_view(self.head),
            body: opt_view(self.body),
            weapon: opt_view(self.weapon),
            accessory: opt_view(self.accessory),
        }
    }
}

/// What an equip request did.
#[derive(Debug, Clone, Copy, PartialEq, Eq, Structural)]
pub enum EquipOutcome {
    /// The slot name is not one of the four.
    UnknownSlot,
    /// The backpack index is past the last slot.
    OutOfRange,
    /// The backpack slot is empty.
    EmptyBackpackSlot,
    /// The slot was occupied and the backpack has no room for its item:
    /// nothing changed.
    BackpackFull,
    /// The item now sits in this slot.
    Equipped(EquipSlot),
}

/// What an unequip request did.
#[derive(Debug, Clone, Copy, PartialEq, Eq, Structural)]
pub enum UnequipOutcome {
    /// The slot name is not one of the four.
    UnknownSlot,
    /// The slot holds nothing.
    SlotEmpty,
    /// The backpack has no empty slot: nothing changed.
    BackpackFull,
    /// The item went back to this backpack slot.
    Unequipped(EquipSlot, usize),
}

/// The effect of equipping the item in backpack slot `index` into the slot named `name`.
pub open spec fn equip_spec(e: EquipView, b: Seq<StackView>, name: Seq<char>, index: int) -> (
    EquipView,
    Seq<StackView>,
    EquipOutcome,
) {
    match slot_named(name) {
        None => (e, b, EquipOutcome::UnknownSlot),
        Some(s) => if index < 0 || index >= b.len() {
            (e, b, EquipOutcome::OutOfRange)
        } else if b[index].count == 0 {
            (e, b, EquipOutcome::EmptyBackpackSlot)
        } else {
            let taken = StackView { proto: b[index].proto, count: 1 };
            let spent = StackView { proto: b[index].proto, count: (b[index].count - 1) as u32 };
            match e.get(s) {
                None => (e.set(s, Some(taken)), b.update(index, spent), EquipOutcome::Equipped(s)),
                Some(prev) => match first_empty_from(b, 0) {
                    None => (e, b, EquipOutcome::BackpackFull),
                    Some(j) => (
                        e.set(s, Some(taken)),
                        b.update(j, prev).update(index, spent),
                        EquipOutcome::Equipped(s),
                    ),
                },
            }
        },
    }
}

/// The effect of taking off what the slot named `name` holds.
pub open spec fn unequip_spec(e: EquipView, b: Seq<StackView>, name: Seq<char>) -> (
    EquipView,
    Seq<StackView>,
    UnequipOutcome,
) {
    match slot_named(name) {
        None => (e, b, UnequipOutcome::UnknownSlot),
        Some(s) => match e.get(s) {
            None => (e, b, UnequipOutcome::SlotEmpty),
            Some(item) => match first_empty_from(b, 0) {
                None => (e, b, UnequipOutcome::BackpackFull),
                Some(j) => (e.set(s, None), b.update(j, item), UnequipOutcome::Unequipped(s, j as usize)),
            },
        },
    }
}

/// Equipping an item and at once taking it off again puts the item, with
/// its definition and a count of one, into an empty backpack slot, and
/// leaves the equipment slot empty, as long as the backpack has room.
pub proof fn lemma_equip_unequip_round_trip(
    e: EquipView,
    b: Seq<StackView>,
    name: Seq<char>,
    index: int,
)
    requires
        equip_spec(e, b, name, index).2 matches EquipOutcome::Equipped(_),
        first_empty_from(equip_spec(e, b, name, index).1, 0) is Some,
    ensures
        ({
            let (e1, b1, _) = equip_spec(e, b, name, index);
            let (e2, b2, r) = unequip_spec(e1, b1, name);
            exists|j: int|
                {
                    &&& r == UnequipOutcome::Unequipped(slot_named(name)->0, j as usize)
                    &&& 0 <= j < b1.len()
                    &&& b1[j].count == 0
                    &&& b2 == b1.update(j, StackView { proto: b[index].proto, count: 1 })
                    &&& e2.get(slot_named(name)->0) is None
                }
        }),
{
    let (e1, b1, _) = equip_spec(e, b, name, index);
    lemma_first_empty(b1, 0);
    let j = first_empty_from(b1, 0)->0;
    assert(unequip_spec(e1, b1, name).2 == UnequipOutcome::Unequipped(slot_named(name)->0, j as usize));
}

/// Swapping equipment is all or nothing: when the slot is occupied and the
/// backpack has no empty slot, the equipment and the backpack stay exactly
/// as they were.
pub proof fn lemma_equip_swap_atomic(e: EquipView, b: Seq<StackView>, name: Seq<char>, index: int)
    requires
        slot_named(name) is Some,
        0 <= index < b.len(),
        b[index].count > 0,
        e.get(slot_named(name)->0) is Some,
        forall|j: int| 0 <= j < b.len() ==> b[j].count != 0,
    ensures
        equip_spec(e, b, name, index) == (e, b, EquipOutcome::BackpackFull),
{
    lemma_first_empty(b, 0);
}

impl Equipment {
    /// All four slots empty.
    pub fn new() -> (r: Self)
        ensures
            r@ == (EquipView { head: None, body: None, weapon: None, accessory: None }),
    {
        Equipment { head: None, body: None, weapon: None, accessory: None }
    }

    /// What the slot named `slot` holds; `None` also for an unknown name.
    pub fn get_slot(&self, slot: &str) -> (r: Option<&ItemStack>)
        ensures
            match slot_named(slot@) {
                Some(s) => match r {
                    Some(st) => self@.get(s) == Some(st@),
                    None => self@.get(s) is None,
                },
                None => r is None,
            },
    {
        match EquipSlot::from_name(slot) {
            Some(s) => self.slot(s).as_ref(),
            None => None,
        }
    }

    /// The slot named `slot`, to change in place; `None` for an unknown name.
    pub fn get_slot_mut(&mut self, slot: &str) -> (r: Option<&mut Option<ItemStack>>)
        ensures
            match slot_named(slot@) {
                Some(s) => r matches Some(m) && opt_view(*m) == old(self)@.get(s)
                    && final(self)@ == old(self)@.set(s, opt_view(*final(m))),
                None => r is None && *final(self) == *old(self),
            },
    {
        match EquipSlot::from_name(slot) {
            Some(EquipSlot::Head) => Some(&mut self.head),
            Some(EquipSlot::Body) => Some(&mut self.body),
            Some(EquipSlot::Weapon) => Some(&mut self.weapon),
            Some(EquipSlot::Accessory) => Some(&mut self.accessory),
            None => None,
        }
    }

    /// What slot `s` holds.
    pub fn slot(&self, s: EquipSlot) -> (r: &Option<ItemStack>)
        ensures
            opt_view(*r) == self@.get(s),
    {
        match s {
            EquipSlot::Head => &self.head,
            EquipSlot::Body => &self.body,
            EquipSlot::Weapon => &self.weapon,
            EquipSlot::Accessory => &self.accessory,
        }
    }

    /// Replaces what slot `s` holds, returning the previous content.
    pub fn replace_slot(&mut self, s: EquipSlot, v: Option<ItemStack>) -> (prev: Option<ItemStack>)
        ensures
            opt_view(prev) == old(self)@.get(s),
            final(self)@ == old(self)@.set(s, opt_view(v)),
    {
        match s {
            EquipSlot::Head => {
                let p = self.head.take();
                self.head = v;
                p
            },
            EquipSlot::Body => {
                let p = self.body.take();
                self.body = v;
                p
            },
            EquipSlot::Weapon => {
                let p = self.weapon.take();
                self.weapon = v;
                p
            },
            EquipSlot::Accessory => {
                let p = self.accessory.take();
                self.accessory = v;
                p
            },
        }
    }

    /// Whether `slot` names one of the four slots.
    pub fn is_valid_slot(slot: &str) -> (r: bool)
        ensures
            r == (slot_named(slot@) is Some),
    {
        EquipSlot::from_name(slot).is_some()
    }

    /// The four slot names, in bonus order.
    pub fn all_slots() -> (r: [&'static str; 4])
        ensures
            r[0]@ == "head"@,
            r[1]@ == "body"@,
            r[2]@ == "weapon"@,
            r[3]@ == "accessory"@,
    {
        ["head", "body", "weapon", "accessory"]
    }

    /// Puts the item of backpack slot `index` into the slot named `slot`.
    /// An item already there goes back to the first empty backpack slot;
    /// where there is none, nothing changes at all.
    pub fn equip(&mut self, backpack: &mut Backpack, slot: &str, index: usize) -> (r: EquipOutcome)
        requires
            old(backpack).wf(),
        ensures
            final(backpack).wf(),
            final(backpack).capacity == old(backpack).capacity,
            (final(self)@, final(backpack)@, r) == equip_spec(
                old(self)@,
                old(backpack)@,
                slot@,
                index as int,
            ),
    {
        let s = match EquipSlot::from_name(slot) {
            Some(s) => s,
            None => return EquipOutcome::UnknownSlot,
        };
        if index >= backpack.slots.len() {
            return EquipOutcome::OutOfRange;
        }
        if backpack.slots[index].count == 0 {
            return EquipOutcome::EmptyBackpackSlot;
        }
        let proto = backpack.slots[index].proto.clone();
        let prev = self.replace_slot(s, None);
        proof {
            lemma_first_empty(old(backpack)@, 0);
        }
        match prev {
            Some(item) => match backpack.first_empty() {
                Some(j) => {
                    backpack.slots.set(j, item);
                },
                None => {
                    self.replace_slot(s, Some(item));
                    assert(self@ =~= old(self)@);
                    return EquipOutcome::BackpackFull;
                },
            },
            None => {},
        }
        let c = backpack.slots[index].count;
        backpack.slots[index].count = c - 1;
        self.replace_slot(s, Some(ItemStack { proto, count: 1 }));
        assert(backpack@ =~= equip_spec(old(self)@, old(backpack)@, slot@, index as int).1);
        assert(self@ =~= equip_spec(old(self)@, old(backpack)@, slot@, index as int).0);
        EquipOutcome::Equipped(s)
    }

    /// Returns the item of the slot named `slot` to the first empty backpack
    /// slot; where there is none, the item stays equipped.
    pub fn unequip(&mut self, backpack: &mut Backpack, slot: &str) -> (r: UnequipOutcome)
        requires
            old(backpack).wf(),
        ensures
            final(backpack).wf(),
            final(backpack).capacity == old(backpack).capacity,
            (final(self)@, final(backpack)@, r) == unequip_spec(old(self)@, old(backpack)@, slot@),
    {
        let s = match EquipSlot::from_name(slot) {
            Some(s) => s,
            None => return UnequipOutcome::UnknownSlot,
        };
        proof {
            lemma_first_empty(old(backpack)@, 0);
        }
        if self.slot(s).is_none() {
            return UnequipOutcome::SlotEmpty;
        }
        match backpack.first_empty() {
            Some(j) => {
                let prev = self.replace_slot(s, None);
                match prev {
                    Some(item) => {
                        backpack.slots.set(j, item);
                        assert(backpack@ =~= unequip_spec(old(self)@, old(backpack)@, slot@).1);
                        UnequipOutcome::Unequipped(s, j)
                    },
                    None => UnequipOutcome::SlotEmpty,
                }
            },
            None => UnequipOutcome::BackpackFull,
        }
    }
}

} // verus!
