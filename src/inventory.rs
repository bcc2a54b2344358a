use vstd::prelude::*;
use crate::items::{blank_item, ItemEntry, ItemStack, ItemView, StackView};
use crate::text::text_eq;

verus! {

/// Number of slots of a new backpack.
pub const CAPACITY: usize = 30;

/// The views of a list of stacks.
pub open spec fn stacks(v: Seq<ItemStack>) -> Seq<StackView> {
    v.map_values(|st: ItemStack| st@)
}

/// First slot at or after `i` whose count is zero.
pub open spec fn first_empty_from(s: Seq<StackView>, i: int) -> Option<int>
    decreases s.len() - i,
{
    if i < 0 || i >= s.len() {
        None
    } else if s[i].count == 0 {
        Some(i)
    } else {
        first_empty_from(s, i + 1)
    }
}

/// First slot at or after `i` that holds a non-empty stack of item `id`.
pub open spec fn first_stack_from(s: Seq<StackView>, id: Seq<char>, i: int) -> Option<int>
    decreases s.len() - i,
{
    if i < 0 || i >= s.len() {
        None
    } else if s[i].count > 0 && s[i].proto.id == id {
        Some(i)
    } else {
        first_stack_from(s, id, i + 1)
    }
}

/// The first empty slot at or after `k` is empty, and every slot between is not.
pub proof fn lemma_first_empty(s: Seq<StackView>, k: int)
    requires
        0 <= k,
    ensures
        match first_empty_from(s, k) {
            Some(i) => k <= i < s.len() && s[i].count == 0 && forall|j: int|
                k <= j < i ==> #[trigger] s[j].count != 0,
            None => forall|j: int| k <= j < s.len() ==> #[trigger] s[j].count != 0,
        },
    decreases s.len() - k,
{
    if k < s.len() && s[k].count != 0 {
        lemma_first_empty(s, k + 1);
    }
}

/// The first stack of `id` at or after `k` holds that item, and no slot between does.
pub proof fn lemma_first_stack(s: Seq<StackView>, id: Seq<char>, k: int)
    requires
        0 <= k,
    ensures
        match first_stack_from(s, id, k) {
            Some(i) => k <= i < s.len() && s[i].count > 0 && s[i].proto.id == id,
            None => forall|j: int|
                k <= j < s.len() ==> !(#[trigger] s[j].count > 0 && s[j].proto.id == id),
        },
    decreases s.len() - k,
{
    if k < s.len() && !(s[k].count > 0 && s[k].proto.id == id) {
        lemma_first_stack(s, id, k + 1);
    }
}

/// Indices of the occupied slots, in slot order.
pub open spec fn occupied(s: Seq<StackView>) -> Seq<usize>
    decreases s.len(),
{
    if s.len() == 0 {
        Seq::empty()
    } else if s.last().count > 0 {
        occupied(s.drop_last()).push((s.len() - 1) as usize)
    } else {
        occupied(s.drop_last())
    }
}

/// Every index listed as occupied is a slot of the backpack.
pub proof fn lemma_occupied_in_range(s: Seq<StackView>)
    ensures
        forall|i: int| 0 <= i < occupied(s).len() ==> (#[trigger] occupied(s)[i]) < s.len(),
    decreases s.len(),
{
    if s.len() > 0 {
        lemma_occupied_in_range(s.drop_last());
        let o = occupied(s.drop_last());
        assert forall|i: int| 0 <= i < occupied(s).len() implies (#[trigger] occupied(s)[i]) < s.len() by {
            if i < o.len() {
                assert(occupied(s)[i] == o[i]);
            }
        }
    }
}

/// What a gift did to the backpack.
#[derive(Debug, Clone, Copy, PartialEq, Eq, Structural)]
pub enum GiveOutcome {
    /// Added to the existing stack in this slot.
    Merged(usize),
    /// Written into this empty slot.
    Placed(usize),
    /// No stack of the item and no empty slot: nothing changed.
    Full,
    /// The existing stack cannot count that high: nothing changed.
    Overflow,
}

/// The effect of a gift of `count` of item `proto`.
pub open spec fn give_spec(s: Seq<StackView>, proto: ItemView, count: u32) -> (
    Seq<StackView>,
    GiveOutcome,
) {
    match first_stack_from(s, proto.id, 0) {
        Some(i) => if s[i].count + count <= u32::MAX {
            (
                s.update(i, StackView { proto: s[i].proto, count: (s[i].count + count) as u32 }),
                GiveOutcome::Merged(i as usize),
            )
        } else {
            (s, GiveOutcome::Overflow)
        },
        None => match first_empty_from(s, 0) {
            Some(i) => (s.update(i, StackView { proto, count }), GiveOutcome::Placed(i as usize)),
            None => (s, GiveOutcome::Full),
        },
    }
}

/// What using a slot did.
#[derive(Debug, Clone, Copy, PartialEq, Eq, Structural)]
pub enum UseOutcome {
    /// The index is past the last slot.
    OutOfRange,
    /// The slot is empty.
    Empty,
    /// A potion was drunk; a heal of this amount is owed.
    Potion(i32),
    /// A potion without a heal value was drunk, to no effect.
    NoEffect,
    /// A scroll was read.
    Scroll,
    /// A key was tried; keys are kept.
    Key,
    /// The item cannot be used; it is kept.
    Unusable,
}

/// How an item of this definition acts when used from a non-empty slot.
pub open spec fn use_kind(it: ItemView) -> UseOutcome {
    if it.item_type == "potion"@ {
        if it.heal != 0 {
            UseOutcome::Potion(it.heal)
        } else {
            UseOutcome::NoEffect
        }
    } else if it.item_type == "scroll"@ {
        UseOutcome::Scroll
    } else if it.item_type == "key"@ {
        UseOutcome::Key
    } else {
        UseOutcome::Unusable
    }
}

/// Whether a use of this kind spends one unit.
pub open spec fn consumes(u: UseOutcome) -> bool {
    u matches UseOutcome::Potion(_) || u == UseOutcome::NoEffect || u == UseOutcome::Scroll
}

/// The slot after one unit is spent: the last unit clears it.
pub open spec fn spend_one(st: StackView) -> StackView {
    if st.count <= 1 {
        StackView { proto: blank_item(), count: 0 }
    } else {
        StackView { proto: st.proto, count: (st.count - 1) as u32 }
    }
}

/// The effect of using slot `index`.
pub open spec fn use_spec(s: Seq<StackView>, index: int) -> (Seq<StackView>, UseOutcome) {
    if index < 0 || index >= s.len() {
        (s, UseOutcome::OutOfRange)
    } else if s[index].count == 0 {
        (s, UseOutcome::Empty)
    } else {
        let u = use_kind(s[index].proto);
        if consumes(u) {
            (s.update(index, spend_one(s[index])), u)
        } else {
            (s, u)
        }
    }
}

/// The player's backpack: a fixed number of slots, where a count of zero
/// marks an empty slot, so that slot indices never move.
#[derive(Debug)]
pub struct Backpack {
    pub slots: Vec<ItemStack>,
    pub capacity: usize,
}

impl View for Backpack {
    type V = Seq<StackView>;

    open spec fn view(&self) -> Seq<StackView> {
        stacks(self.slots@)
    }
}

impl Backpack {
    /// The slot array has exactly `capacity` entries.
    pub open spec fn wf(&self) -> bool {
        self.slots@.len() == self.capacity
    }

    /// A backpack of `capacity` empty slots.
    pub fn new(capacity: usize) -> (r: Self)
        ensures
            r.wf(),
            r.capacity == capacity,
            r@ == Seq::new(capacity as nat, |i: int| StackView { proto: blank_item(), count: 0 }),
    {
        let mut slots: Vec<ItemStack> = Vec::new();
        while slots.len() < capacity
            invariant
                slots@.len() <= capacity,
                forall|j: int|
                    0 <= j < slots@.len() ==> (#[trigger] slots@[j])@ == (StackView {
                        proto: blank_item(),
                        count: 0,
                    }),
            decreases capacity - slots@.len(),
        {
            slots.push(ItemStack::empty());
        }
        let r = Backpack { slots, capacity };
        assert(r@ =~= Seq::new(capacity as nat, |i: int| StackView { proto: blank_item(), count: 0 }));
        r
    }

    /// First empty slot, if any.
    pub fn first_empty(&self) -> (r: Option<usize>)
        ensures
            match r {
                Some(i) => first_empty_from(self@, 0) == Some(i as int),
                None => first_empty_from(self@, 0) is None,
            },
    {
        let mut i: usize = 0;
        while i < self.slots.len()
            invariant
                i <= self.slots@.len(),
                first_empty_from(self@, 0) == first_empty_from(self@, i as int),
            decreases self.slots@.len() - i,
        {
            if self.slots[i].count == 0 {
                return Some(i);
            }
            i += 1;
        }
        None
    }

    /// First slot holding a non-empty stack of item `id`, if any.
    pub fn find_stack(&self, id: &str) -> (r: Option<usize>)
        ensures
            match r {
                Some(i) => first_stack_from(self@, id@, 0) == Some(i as int),
                None => first_stack_from(self@, id@, 0) is None,
            },
    {
        let mut i: usize = 0;
        while i < self.slots.len()
            invariant
                i <= self.slots@.len(),
                first_stack_from(self@, id@, 0) == first_stack_from(self@, id@, i as int),
            decreases self.slots@.len() - i,
        {
            if self.slots[i].count > 0 && text_eq(self.slots[i].proto.id.as_str(), id) {
                return Some(i);
            }
            i += 1;
        }
        None
    }

    /// Adds `count` of item `proto`: onto the first non-empty stack of the
    /// same id, else into the first empty slot; when neither exists the
    /// gift is dropped.
    pub fn give(&mut self, proto: &ItemEntry, count: u32) -> (r: GiveOutcome)
        requires
            old(self).wf(),
        ensures
            final(self).wf(),
            final(self).capacity == old(self).capacity,
            (final(self)@, r) == give_spec(old(self)@, proto@, count),
    {
        proof {
            lemma_first_empty(self@, 0);
            lemma_first_stack(self@, proto.id@, 0);
        }
        match self.find_stack(proto.id.as_str()) {
            Some(i) => {
                if self.slots[i].count as u64 + count as u64 <= u32::MAX as u64 {
                    self.slots[i].count = self.slots[i].count + count;
                    assert(self@ =~= give_spec(old(self)@, proto@, count).0);
                    GiveOutcome::Merged(i)
                } else {
                    GiveOutcome::Overflow
                }
            },
            None => match self.first_empty() {
                Some(i) => {
                    self.slots.set(i, ItemStack { proto: proto.clone(), count });
                    assert(self@ =~= give_spec(old(self)@, proto@, count).0);
                    GiveOutcome::Placed(i)
                },
                None => GiveOutcome::Full,
            },
        }
    }

    /// Uses the item in slot `index`. Potions (a heal is owed where their
    /// heal value is not zero) and scrolls spend one unit; keys and other
    /// items are kept. Spending the last unit clears the slot.
    pub fn use_item(&mut self, index: usize) -> (r: UseOutcome)
        requires
            old(self).wf(),
        ensures
            final(self).wf(),
            final(self).capacity == old(self).capacity,
            (final(self)@, r) == use_spec(old(self)@, index as int),
    {
        if index >= self.slots.len() {
            return UseOutcome::OutOfRange;
        }
        if self.slots[index].count == 0 {
            return UseOutcome::Empty;
        }
        let kind = if text_eq(self.slots[index].proto.item_type.as_str(), "potion") {
            if self.slots[index].proto.heal != 0 {
                UseOutcome::Potion(self.slots[index].proto.heal)
            } else {
                UseOutcome::NoEffect
            }
        } else if text_eq(self.slots[index].proto.item_type.as_str(), "scroll") {
            UseOutcome::Scroll
        } else if text_eq(self.slots[index].proto.item_type.as_str(), "key") {
            UseOutcome::Key
        } else {
            UseOutcome::Unusable
        };
        match kind {
            UseOutcome::Potion(_) | UseOutcome::NoEffect | UseOutcome::Scroll => {
                if self.slots[index].count <= 1 {
                    self.slots.set(index, ItemStack::empty());
                } else {
                    self.slots[index].count = self.slots[index].count - 1;
                }
                assert(self@ =~= use_spec(old(self)@, index as int).0);
            },
            _ => {},
        }
        kind
    }

    /// Indices of the occupied slots, in slot order.
    pub fn occupied_slots(&self) -> (r: Vec<usize>)
        ensures
            r@ == occupied(self@),
    {
        let mut r: Vec<usize> = Vec::new();
        let mut i: usize = 0;
        while i < self.slots.len()
            invariant
                i <= self.slots@.len(),
                r@ == occupied(self@.take(i as int)),
            decreases self.slots@.len() - i,
        {
            assert(self@.take(i as int + 1).drop_last() =~= self@.take(i as int));
            if self.slots[i].count > 0 {
                r.push(i);
            }
            i += 1;
        }
        assert(self@.take(i as int) =~= self@);
        r
    }
}

} // verus!
