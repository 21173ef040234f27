//! Item stacks: the value type stored in inventory slots, pairing a catalog
//! item token with a count and, for damageable items, accumulated damage.
use vstd::prelude::*;

use crate::catalog::Item;

verus! {

/// A stack of items.
///
/// `damage` is present only while the stack tracks damage; absence means
/// "not damageable" or "damage not tracked".  Accumulated damage at or above
/// the item's durability signals brokenness but does not destroy the stack:
/// callers act on the boolean that [`ItemStack::damage`] returns.  Likewise a
/// stack whose count reaches zero is a valid value the caller must interpret
/// and clear.
#[derive(Debug, Clone, PartialEq, Eq, Structural)]
pub struct ItemStack {
    pub item: Item,
    pub count: u32,
    /// Damage to the item, if it's damageable.
    pub damage: Option<u32>,
}

impl ItemStack {
    /// The stack after `n` items were added.
    pub open spec fn spec_add(self, n: u32) -> ItemStack {
        ItemStack { count: (self.count + n) as u32, ..self }
    }

    /// Whether the stack holds at least `n` items, so that removing `n` can
    /// succeed.
    pub open spec fn can_remove(self, n: u32) -> bool {
        n <= self.count
    }

    /// The stack after an attempt to remove `n` items: `n` fewer where enough
    /// were held, unchanged otherwise (all-or-nothing).
    pub open spec fn spec_remove(self, n: u32) -> ItemStack {
        if self.can_remove(n) {
            ItemStack { count: (self.count - n) as u32, ..self }
        } else {
            self
        }
    }

    /// The stack after `amount` damage was dealt: accumulated where the stack
    /// tracks damage, unchanged otherwise.
    pub open spec fn spec_damaged(self, amount: u32) -> ItemStack {
        match self.damage {
            Some(d) => ItemStack { damage: Some((d + amount) as u32), ..self },
            None => self,
        }
    }

    /// Whether the stack is broken: it tracks damage, its item is damageable,
    /// and the accumulated damage has reached the item's durability.
    pub open spec fn spec_broken(self) -> bool {
        match (self.damage, self.item.spec_durability()) {
            (Some(d), Some(durability)) => d >= durability,
            _ => false,
        }
    }

    /// Creates a new `ItemStack` with damage absent.
    ///
    /// The count is not validated against any catalog limit; that is the
    /// caller's responsibility.
    pub fn new(item: Item, count: u32) -> (s: ItemStack)
        ensures
            s == (ItemStack { item, count, damage: None }),
    {
        ItemStack { item, count, damage: None }
    }

    /// Returns the item type for this `ItemStack`.
    pub fn item(&self) -> (r: Item)
        ensures
            r == self.item,
    {
        self.item
    }

    /// Returns the number of items in this `ItemStack`.
    pub fn count(&self) -> (r: u32)
        ensures
            r == self.count,
    {
        self.count
    }

    /// Adds more items to this `ItemStack`. Returns the new count.
    ///
    /// The sum must fit in a `u32`: addition here is checked by precondition
    /// rather than allowed to wrap, so counts can never silently overflow.
    pub fn add(&mut self, count: u32) -> (new_count: u32)
        requires
            old(self).count + count <= u32::MAX,
        ensures
            *final(self) == old(self).spec_add(count),
            new_count == final(self).count,
    {
        self.count = self.count + count;
        self.count
    }

    /// Removes some items from this `ItemStack`. Returns whether there were
    /// enough items to be removed.
    ///
    /// Removal is all-or-nothing: when `count` exceeds the current count the
    /// stack is left unchanged and `false` is returned, never a partial
    /// decrement.
    pub fn remove(&mut self, count: u32) -> (enough: bool)
        ensures
            enough == old(self).can_remove(count),
            *final(self) == old(self).spec_remove(count),
    {
        if count <= self.count {
            self.count = self.count - count;
            true
        } else {
            false
        }
    }

    /// Sets the item for this `ItemStack`.
    pub fn set_item(&mut self, item: Item)
        ensures
            *final(self) == (ItemStack { item, ..*old(self) }),
    {
        self.item = item;
    }

    /// Sets the count for this `ItemStack`.
    pub fn set_count(&mut self, count: u32)
        ensures
            *final(self) == (ItemStack { count, ..*old(self) }),
    {
        self.count = count;
    }

    /// Damages the item by the specified amount.
    /// If this returns `true`, then the item is broken.
    ///
    /// A stack that does not track damage accumulates nothing and is never
    /// broken.  Accumulated damage may exceed the durability; the caller owns
    /// the decision of what "broken" means (e.g. removing the stack).
    pub fn damage(&mut self, amount: u32) -> (broken: bool)
        requires
            old(self).damage matches Some(d) ==> d + amount <= u32::MAX,
        ensures
            *final(self) == old(self).spec_damaged(amount),
            broken == final(self).spec_broken(),
    {
        match self.damage {
            Some(d) => {
                let accumulated: u32 = d + amount;
                self.damage = Some(accumulated);
                match self.item.durability() {
                    Some(durability) => accumulated >= durability,
                    None => false,
                }
            }
            None => false,
        }
    }
}

/// Count round trip: adding `c1` items and then removing any `c2` of at most
/// the new count succeeds and leaves `count + c1 - c2` items, with the item
/// and damage untouched.
pub proof fn lemma_add_remove_round_trip(s: ItemStack, c1: u32, c2: u32)
    requires
        s.count + c1 <= u32::MAX,
        c2 <= s.count + c1,
    ensures
        s.spec_add(c1).can_remove(c2),
        s.spec_add(c1).spec_remove(c2) == (ItemStack {
            count: (s.count + c1 - c2) as u32,
            ..s
        }),
{
}

/// The stack after `n` unit-damage steps.
pub open spec fn spec_damaged_times(s: ItemStack, n: nat) -> ItemStack
    decreases n,
{
    if n == 0 {
        s
    } else {
        spec_damaged_times(s, (n - 1) as nat).spec_damaged(1)
    }
}

/// Damage monotonicity: for a stack tracking damage `d` on an item of
/// durability `D`, `n` unit-damage steps accumulate to exactly `d + n`, and
/// the stack is broken precisely once `d + n` has reached `D` — so repeated
/// unit damage reports unbroken until the threshold and broken ever after.
/// A stack that does not track damage is never changed and never broken.
pub proof fn lemma_damage_monotone(s: ItemStack, n: nat)
    requires
        s.damage matches Some(d) ==> d + n <= u32::MAX,
    ensures
        s.damage matches Some(d) ==> spec_damaged_times(s, n) == (ItemStack {
            damage: Some((d + n) as u32),
            ..s
        }),
        s.damage is Some && s.item.spec_durability() is Some ==> (spec_damaged_times(
            s,
            n,
        ).spec_broken() <==> s.damage->0 + n >= s.item.spec_durability()->0),
        s.damage is None ==> spec_damaged_times(s, n) == s && !spec_damaged_times(
            s,
            n,
        ).spec_broken(),
    decreases n,
{
    if n > 0 {
        lemma_damage_monotone(s, (n - 1) as nat);
    }
}

/// Removing more items than a stack holds fails and leaves the stack
/// unchanged.
pub proof fn lemma_remove_insufficient(s: ItemStack, c: u32)
    requires
        c > s.count,
    ensures
        !s.can_remove(c),
        s.spec_remove(c) == s,
{
}

} // verus!
