use vstd::prelude::*;
use crate::text::{ascii_ci_eq, eq_ignore_ascii_case, item_uuid, uuid_text_of};

verus! {

/// The mathematical content of an item definition.
pub struct ItemView {
    pub id: Seq<char>,
    pub name: Seq<char>,
    pub atk: i32,
    pub def: i32,
    pub max_hp: i32,
    pub rng: i32,
    pub heal: i32,
    pub item_type: Seq<char>,
}

/// The definition a cleared slot holds: empty texts and zero bonuses.
pub open spec fn blank_item() -> ItemView {
    ItemView {
        id: Seq::empty(),
        name: Seq::empty(),
        atk: 0,
        def: 0,
        max_hp: 0,
        rng: 0,
        heal: 0,
        item_type: Seq::empty(),
    }
}

/// One entry of the item catalog.
#[derive(Debug)]
pub struct ItemEntry {
    pub id: String,
    pub name: String,
    pub atk: i32,
    pub def: i32,
    pub max_hp: i32,
    pub rng: i32,
    pub heal: i32,
    /// "weapon", "armor", "potion", "scroll", "key", ...
    pub item_type: String,
}

impl View for ItemEntry {
    type V = ItemView;

    open spec fn view(&self) -> ItemView {
        ItemView {
            id: self.id@,
            name: self.name@,
            atk: self.atk,
            def: self.def,
            max_hp: self.max_hp,
            rng: self.rng,
            heal: self.heal,
            item_type: self.item_type@,
        }
    }
}

impl Clone for ItemEntry {
    fn clone(&self) -> (r: Self)
        ensures
            r@ == self@,
    {
        ItemEntry {
            id: self.id.clone(),
            name: self.name.clone(),
            atk: self.atk,
            def: self.def,
            max_hp: self.max_hp,
            rng: self.rng,
            heal: self.heal,
            item_type: self.item_type.clone(),
        }
    }
}

impl Default for ItemEntry {
    fn default() -> (r: Self)
        ensures
            r@ == blank_item(),
    {
        ItemEntry {
            id: String::new(),
            name: String::new(),
            atk: 0,
            def: 0,
            max_hp: 0,
            rng: 0,
            heal: 0,
            item_type: String::new(),
        }
    }
}

/// The loaded item catalog, in the order of its source.
#[derive(Debug)]
pub struct ItemList {
    pub items: Vec<ItemEntry>,
}

impl View for ItemList {
    type V = Seq<ItemView>;

    open spec fn view(&self) -> Seq<ItemView> {
        self.items@.map_values(|e: ItemEntry| e@)
    }
}

/// First catalog position at or after `i` whose id equals `id` up to ASCII case.
pub open spec fn find_id_from(items: Seq<ItemView>, id: Seq<char>, i: int) -> Option<int>
    decreases items.len() - i,
{
    if i < 0 || i >= items.len() {
        None
    } else if ascii_ci_eq(items[i].id, id) {
        Some(i)
    } else {
        find_id_from(items, id, i + 1)
    }
}

/// Whether a catalog entry answers a lower-cased query: by id or name up to
/// ASCII case, or by the exact text of its id's UUID.
pub open spec fn answers_token(e: ItemView, t: Seq<char>) -> bool {
    ascii_ci_eq(e.id, t) || ascii_ci_eq(e.name, t) || uuid_text_of(e.id) == t
}

/// First catalog position at or after `i` that answers the query `t`.
pub open spec fn find_token_from(items: Seq<ItemView>, t: Seq<char>, i: int) -> Option<int>
    decreases items.len() - i,
{
    if i < 0 || i >= items.len() {
        None
    } else if answers_token(items[i], t) {
        Some(i)
    } else {
        find_token_from(items, t, i + 1)
    }
}

/// A position found in the catalog lies inside it.
pub proof fn lemma_find_in_range(items: Seq<ItemView>, id: Seq<char>, t: Seq<char>, i: int)
    requires
        0 <= i,
    ensures
        find_id_from(items, id, i) matches Some(k) ==> i <= k < items.len(),
        find_token_from(items, t, i) matches Some(k) ==> i <= k < items.len(),
    decreases items.len() - i,
{
    if i < items.len() {
        lemma_find_in_range(items, id, t, i + 1);
    }
}

impl ItemList {
    /// Position of the first entry whose id equals `id` up to ASCII case.
    pub fn find_by_id(&self, id: &str) -> (r: Option<usize>)
        ensures
            match r {
                Some(i) => find_id_from(self@, id@, 0) == Some(i as int),
                None => find_id_from(self@, id@, 0) is None,
            },
    {
        let mut i: usize = 0;
        while i < self.items.len()
            invariant
                i <= self.items@.len(),
                find_id_from(self@, id@, 0) == find_id_from(self@, id@, i as int),
            decreases self.items@.len() - i,
        {
            if eq_ignore_ascii_case(self.items[i].id.as_str(), id) {
                return Some(i);
            }
            i += 1;
        }
        None
    }

    /// Position of the first entry that answers the lower-cased query `t`.
    pub fn find_by_token(&self, t: &str) -> (r: Option<usize>)
        ensures
            match r {
                Some(i) => find_token_from(self@, t@, 0) == Some(i as int),
                None => find_token_from(self@, t@, 0) is None,
            },
    {
        let mut i: usize = 0;
        while i < self.items.len()
            invariant
                i <= self.items@.len(),
                find_token_from(self@, t@, 0) == find_token_from(self@, t@, i as int),
            decreases self.items@.len() - i,
        {
            let e = &self.items[i];
            if eq_ignore_ascii_case(e.id.as_str(), t) || eq_ignore_ascii_case(e.name.as_str(), t)
                || text_of_uuid_matches(e.id.as_str(), t) {
                return Some(i);
            }
            i += 1;
        }
        None
    }
}

/// Whether the UUID text of `id` is exactly `t`.
fn text_of_uuid_matches(id: &str, t: &str) -> (r: bool)
    ensures
        r == (uuid_text_of(id@) == t@),
{
    let u = item_uuid(id);
    crate::text::text_eq(u.as_str(), t)
}

/// The mathematical content of a stack: a definition and a count.
pub struct StackView {
    pub proto: ItemView,
    pub count: u32,
}

/// A run-time quantity of one item; a count of zero marks an empty slot.
#[derive(Debug)]
pub struct ItemStack {
    pub proto: ItemEntry,
    pub count: u32,
}

impl View for ItemStack {
    type V = StackView;

    open spec fn view(&self) -> StackView {
        StackView { proto: self.proto@, count: self.count }
    }
}

impl Clone for ItemStack {
    fn clone(&self) -> (r: Self)
        ensures
            r@ == self@,
    {
        ItemStack { proto: self.proto.clone(), count: self.count }
    }
}

impl ItemStack {
    /// An empty slot: the blank definition with count zero.
    pub fn empty() -> (r: Self)
        ensures
            r@ == (StackView { proto: blank_item(), count: 0 }),
    {
        ItemStack { proto: ItemEntry::default(), count: 0 }
    }
}

} // verus!
