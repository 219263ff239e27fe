//! Items and item stacks: a registered item is its raw id, and a stack is a
//! count of one item together with optional named tag data.

use crate::nbt::{as_i32, as_u32, compound_eq, NbtCompound, NbtElement};
use crate::registry::{Holder, Registration};
use vstd::prelude::*;

verus! {

/// An item, identified by the raw id its registry assigned it. The zero id
/// designates the registry's fallback entry, so a fresh item starts there.
#[derive(Clone, Copy, PartialEq, Eq, Hash, Structural, Debug)]
pub struct Item(usize);

impl Item {
    /// The raw id this item carries.
    pub closed spec fn spec_id(&self) -> usize {
        self.0
    }

    /// A fresh item, carrying the zero raw id until a registry assigns one.
    pub fn new() -> (r: Self)
        ensures
            r.spec_id() == 0,
    {
        Self(0)
    }

    /// Raw id of this item.
    pub fn id(&self) -> (r: usize)
        ensures
            r == self.spec_id(),
    {
        self.0
    }
}

impl Registration for Item {
    open spec fn spec_raw_id(&self) -> usize {
        self.spec_id()
    }

    closed spec fn spec_with_raw_id(self, id: usize) -> Self {
        Item(id)
    }

    proof fn lemma_with_raw_id(self, id: usize) {
    }

    fn accept(&mut self, id: usize) {
        self.0 = id;
    }

    fn raw_id(&self) -> (r: usize) {
        self.0
    }
}

impl Default for Item {
    /// The fallback item: the one at raw id zero.
    fn default() -> (r: Self)
        ensures
            r.spec_id() == 0,
    {
        Self::new()
    }
}

/// A value that designates an item.
pub trait AsItem {
    /// The designated item.
    spec fn spec_as_item(&self) -> Item;

    /// The designated item.
    fn as_item(&self) -> (r: Item)
        ensures
            r == self.spec_as_item(),
    ;
}

impl AsItem for Item {
    open spec fn spec_as_item(&self) -> Item {
        *self
    }

    fn as_item(&self) -> (r: Item) {
        *self
    }
}

impl AsItem for Holder<Item> {
    open spec fn spec_as_item(&self) -> Item {
        self.spec_value()
    }

    fn as_item(&self) -> (r: Item) {
        *self.value()
    }
}

/// The hooks a consumer registers to give items their gameplay limits and to
/// amend tag data after it is loaded or replaced. The core consults them and
/// is verified for every answer they may give; amendments must keep entry
/// names distinct.
pub trait ItemEvents {
    /// The largest count a stack of this kind may hold.
    fn get_max_count(&self, stack: &ItemStack) -> u8;

    /// The damage at which this kind of stack breaks, zero for unbreakable
    /// kinds.
    fn get_max_damage(&self, stack: &ItemStack) -> u32;

    /// Amends freshly loaded tag data for the given item.
    fn post_process_nbt(&self, item: Item, nbt: &mut NbtCompound)
        requires
            old(nbt).wf(),
        ensures
            final(nbt).wf(),
    ;
}

/// Whether two optional tag compounds hold the same data.
pub open spec fn nbt_opt_eq(a: Option<NbtCompound>, b: Option<NbtCompound>) -> bool {
    match (a, b) {
        (Option::None, Option::None) => true,
        (Option::Some(x), Option::Some(y)) => compound_eq(x, y),
        _ => false,
    }
}

/// A stack of items: a count, the item, and the stack's optional named tag
/// data.
pub struct ItemStack {
    /// Count of this stack.
    pub count: u8,
    /// The item in this stack.
    pub item: Item,
    /// The stack's tag data, if any.
    pub nbt: Option<NbtCompound>,
}

impl ItemStack {
    /// The item in this stack.
    pub open spec fn spec_item(&self) -> Item {
        self.item
    }

    /// The stack's tag data, if any.
    pub open spec fn spec_nbt(&self) -> Option<NbtCompound> {
        self.nbt
    }

    /// The tag compound, when present, has distinct entry names; every
    /// constructor and mutation preserves this.
    pub open spec fn wf(&self) -> bool {
        self.spec_nbt() matches Some(c) ==> c.wf()
    }

    /// A stack of `count` of the given item, with no tag data.
    pub fn new<T: AsItem>(item: &T, count: u8) -> (r: Self)
        ensures
            r.count == count,
            r.spec_item() == item.spec_as_item(),
            r.spec_nbt() is None,
            r.wf(),
    {
        Self { count, item: item.as_item(), nbt: None }
    }

    /// Whether this stack is empty: no items, or the fallback item.
    pub fn is_empty(&self) -> (r: bool)
        ensures
            r == (self.spec_item().spec_id() == 0 || self.count == 0),
    {
        self.item == Item::default() || self.count == 0
    }

    /// Takes up to `amount` items out of this stack into a new stack of the
    /// taken count; the rest stays here. Item and tag data carry over to
    /// both.
    pub fn take(&mut self, amount: u8) -> (r: Self)
        requires
            old(self).wf(),
        ensures
            final(self).wf(),
            r.wf(),
            r.count == if amount <= old(self).count {
                amount
            } else {
                old(self).count
            },
            final(self).count == old(self).count - r.count,
            final(self).spec_item() == old(self).spec_item(),
            r.spec_item() == old(self).spec_item(),
            final(self).spec_nbt() == old(self).spec_nbt(),
            nbt_opt_eq(r.spec_nbt(), old(self).spec_nbt()),
    {
        let i = if amount <= self.count {
            amount
        } else {
            self.count
        };
        let mut stack = self.clone();
        stack.count = i;
        self.count = self.count - i;
        stack
    }

    /// Takes every item out of this stack into a new stack; this one ends
    /// empty.
    pub fn take_all(&mut self) -> (r: Self)
        requires
            old(self).wf(),
        ensures
            final(self).wf(),
            r.wf(),
            r.count == old(self).count,
            final(self).count == 0,
            final(self).spec_item() == old(self).spec_item(),
            r.spec_item() == old(self).spec_item(),
            final(self).spec_nbt() == old(self).spec_nbt(),
            nbt_opt_eq(r.spec_nbt(), old(self).spec_nbt()),
    {
        let amount = self.count;
        self.take(amount)
    }

    /// The item in this stack.
    pub fn item(&self) -> (r: &Item)
        ensures
            *r == self.spec_item(),
    {
        &self.item
    }

    /// The stack's tag data, if any.
    pub fn nbt(&self) -> (r: Option<&NbtCompound>)
        ensures
            match r {
                Some(c) => self.spec_nbt() == Some(*c),
                None => self.spec_nbt() is None,
            },
    {
        self.nbt.as_ref()
    }

    /// Mutable access to the stack's tag data, if any.
    pub fn nbt_mut(&mut self) -> (r: Option<&mut NbtCompound>)
        ensures
            match r {
                Some(m) => old(self).spec_nbt() == Some(*m) && final(self).spec_nbt() == Some(
                    *final(m),
                ),
                None => old(self).spec_nbt() is None && *final(self) == *old(self),
            },
            final(self).count == old(self).count,
            final(self).spec_item() == old(self).spec_item(),
    {
        self.nbt.as_mut()
    }

    /// The stack's tag data, created empty first when absent.
    pub fn get_or_init_nbt(&mut self) -> (r: &mut NbtCompound)
        ensures
            (*r).spec_entries() == match old(self).spec_nbt() {
                Some(c) => c.spec_entries(),
                None => Seq::<(String, NbtElement)>::empty(),
            },
            old(self).wf() ==> (*r).wf(),
            final(self).spec_nbt() == Some(*final(r)),
            final(self).count == old(self).count,
            final(self).spec_item() == old(self).spec_item(),
    {
        if self.nbt.is_none() {
            self.nbt = Some(NbtCompound::new());
        }
        match self.nbt.as_mut() {
            Some(c) => c,
            // unreachable: the slot was just filled when it was empty
            None => vstd::pervasive::unreached(),
        }
    }

    /// The stack's damage: the `Damage` tag entry read as an unsigned value,
    /// zero when absent or not an integer.
    pub fn damage(&self) -> (r: u32)
        ensures
            r == self.spec_damage(),
    {
        match &self.nbt {
            None => 0,
            Some(c) => {
                match c.get_int("Damage") {
                    Some(v) => crate::nbt::to_u32(v),
                    None => 0,
                }
            },
        }
    }

    /// Sets the stack's damage: stores it, wrapped to a signed value, under
    /// the `Damage` tag entry, creating the tag data first when absent.
    pub fn set_damage(&mut self, damage: u32)
        requires
            old(self).wf(),
        ensures
            final(self).wf(),
            final(self).count == old(self).count,
            final(self).spec_item() == old(self).spec_item(),
            ({
                let base = match old(self).spec_nbt() {
                    Some(c) => c.spec_entries(),
                    None => Seq::<(String, NbtElement)>::empty(),
                };
                final(self).spec_nbt() matches Some(c2) && (match NbtCompound::find_key_in(
                    base,
                    "Damage"@,
                    0,
                ) {
                    Some(i) => c2.spec_entries() == base.update(
                        i,
                        (base[i].0, NbtElement::I32(as_i32(damage))),
                    ),
                    None => c2.spec_entries().len() == base.len() + 1
                        && c2.spec_entries().subrange(0, base.len() as int) == base && (
                    c2.spec_entries().last().0)@ == "Damage"@ && c2.spec_entries().last().1
                        == NbtElement::I32(as_i32(damage)),
                })
            }),
    {
        let value = crate::nbt::to_i32(damage);
        let key = damage_key();
        let c = self.get_or_init_nbt();
        c.insert_int(key, value);
        proof {
            let base = match old(self).spec_nbt() {
                Some(cc) => cc.spec_entries(),
                None => Seq::<(String, NbtElement)>::empty(),
            };
            if NbtCompound::find_key_in(base, "Damage"@, 0) is None {
                assert(final(c).spec_entries().subrange(0, base.len() as int) =~= base);
            }
        }
    }

    /// The largest count this stack may hold, as the registered events
    /// answer it.
    pub fn max_count<E: ItemEvents>(&self, events: &E) -> u8 {
        events.get_max_count(self)
    }

    /// Whether more than one of this stack's item may be held at once, given
    /// the answered count limit.
    pub fn is_stackable_with(&self, max_count: u8) -> (r: bool)
        ensures
            r == (max_count > 1),
    {
        max_count > 1
    }

    /// Whether more than one of this stack's item may be held at once, as
    /// the registered events answer it.
    pub fn is_stackable<E: ItemEvents>(&self, events: &E) -> bool {
        let max_count = self.max_count(events);
        self.is_stackable_with(max_count)
    }

    /// The damage at which this stack breaks, as the registered events
    /// answer it.
    pub fn max_damage<E: ItemEvents>(&self, events: &E) -> u32 {
        events.get_max_damage(self)
    }

    /// Whether this stack can take damage, given the answered damage limit:
    /// it is not empty, the limit is set, and the tag data does not mark it
    /// unbreakable.
    pub open spec fn is_damageable_with_spec(&self, max_damage: u32) -> bool {
        !(self.spec_item().spec_id() == 0 || self.count == 0) && max_damage != 0 && !(
        match self.spec_nbt() {
            Some(c) => match c.spec_lookup("Unbreakable"@) {
                Some(i) => match c.spec_entries()[i].1 {
                    NbtElement::U8(b) => b != 0,
                    _ => false,
                },
                None => false,
            },
            None => false,
        })
    }

    /// Whether this stack can take damage, given the answered damage limit.
    pub fn is_damageable_with(&self, max_damage: u32) -> (r: bool)
        ensures
            r == self.is_damageable_with_spec(max_damage),
    {
        if self.is_empty() || max_damage == 0 {
            false
        } else {
            match &self.nbt {
                None => true,
                Some(c) => {
                    match c.get_bool("Unbreakable") {
                        Some(unbreakable) => !unbreakable,
                        None => true,
                    }
                },
            }
        }
    }

    /// Whether this stack can take damage, as the registered events answer
    /// the damage limit.
    pub fn is_damageable<E: ItemEvents>(&self, events: &E) -> bool {
        let max_damage = self.max_damage(events);
        self.is_damageable_with(max_damage)
    }

    /// Whether this stack can take damage and already has some, given the
    /// answered damage limit.
    pub fn is_damaged_with(&self, max_damage: u32) -> (r: bool)
        ensures
            r == (self.is_damageable_with_spec(max_damage) && self.spec_damage() > 0),
    {
        self.is_damageable_with(max_damage) && self.damage() > 0
    }

    /// The stack's damage, as `damage` reads it.
    pub open spec fn spec_damage(&self) -> u32 {
        match self.spec_nbt() {
            None => 0u32,
            Some(c) => match c.spec_lookup("Damage"@) {
                Some(i) => match c.spec_entries()[i].1 {
                    NbtElement::I32(v) => as_u32(v),
                    _ => 0u32,
                },
                None => 0u32,
            },
        }
    }

    /// Whether this stack can take damage and already has some, as the
    /// registered events answer the damage limit.
    pub fn is_damaged<E: ItemEvents>(&self, events: &E) -> bool {
        let max_damage = self.max_damage(events);
        self.is_damaged_with(max_damage)
    }

    /// Replaces the stack's tag data: damage is renormalized through the
    /// damage entry when the stack can take damage, and the registered
    /// events then amend the new data.
    pub fn set_nbt<E: ItemEvents>(&mut self, nbt: Option<NbtCompound>, events: &E)
        requires
            old(self).wf(),
            nbt matches Some(c) ==> c.wf(),
        ensures
            final(self).wf(),
            final(self).count == old(self).count,
            final(self).spec_item() == old(self).spec_item(),
    {
        self.nbt = nbt;
        let max_damage = self.max_damage(events);
        if self.is_damageable_with(max_damage) {
            let current = self.damage();
            self.set_damage(current);
        }
        let item = self.item;
        match self.nbt.as_mut() {
            Some(compound) => events.post_process_nbt(item, compound),
            None => {},
        }
    }

    /// Whether the given stack's item and tag data equal this stack's: two
    /// empty stacks of one item always combine; otherwise the tag data must
    /// match.
    pub fn can_combine(&self, other: &Self) -> (r: bool)
        ensures
            r == (if self.spec_item() != other.spec_item() {
                false
            } else if (self.spec_item().spec_id() == 0 || self.count == 0) && (
            other.spec_item().spec_id() == 0 || other.count == 0) {
                true
            } else {
                nbt_opt_eq(self.spec_nbt(), other.spec_nbt())
            }),
    {
        let a = *self.item();
        let b = *other.item();
        if a != b {
            false
        } else if self.is_empty() && other.is_empty() {
            true
        } else {
            match (&self.nbt, &other.nbt) {
                (None, None) => true,
                (Some(x), Some(y)) => x == y,
                _ => false,
            }
        }
    }
}

/// The name of the damage tag entry.
fn damage_key() -> (r: String)
    ensures
        r@ == "Damage"@,
{
    let s: &str = "Damage";
    s.to_owned()
}

impl Clone for ItemStack {
    fn clone(&self) -> (r: Self)
        ensures
            r.count == self.count,
            r.spec_item() == self.spec_item(),
            nbt_opt_eq(r.spec_nbt(), self.spec_nbt()),
            r.wf() == self.wf(),
    {
        let nbt = match &self.nbt {
            Some(c) => {
                let c2 = c.clone();
                proof {
                    crate::nbt::lemma_compound_eq_wf(c2, *c);
                }
                Some(c2)
            },
            None => None,
        };
        Self { count: self.count, item: self.item, nbt }
    }
}

impl Default for ItemStack {
    /// An empty stack of the fallback item.
    fn default() -> (r: Self)
        ensures
            r.count == 0,
            r.spec_item().spec_id() == 0,
            r.spec_nbt() is None,
            r.wf(),
    {
        Self { count: 0, item: Item::default(), nbt: None }
    }
}

impl PartialEq for ItemStack {
    fn eq(&self, other: &Self) -> (r: bool) {
        let nbt_equal = match (&self.nbt, &other.nbt) {
            (None, None) => true,
            (Some(x), Some(y)) => x == y,
            _ => false,
        };
        self.count == other.count && self.item == other.item && nbt_equal
    }
}

impl vstd::std_specs::cmp::PartialEqSpecImpl for ItemStack {
    open spec fn obeys_eq_spec() -> bool {
        true
    }

    open spec fn eq_spec(&self, other: &Self) -> bool {
        self.count == other.count && self.spec_item() == other.spec_item() && nbt_opt_eq(
            self.spec_nbt(),
            other.spec_nbt(),
        )
    }
}

} // verus!
