//! The item catalog: a closed set of item identifiers with their static
//! properties. The runtime core treats these as immutable, value-comparable
//! tokens; the only property it reads is an item's optional durability.
use vstd::prelude::*;

verus! {

/// An item identifier from the catalog.
///
/// Each variant carries static data looked up through [`Item::durability`]:
/// a damage threshold for damageable items (tools, weapons, armor), absent
/// for plain materials that do not track damage.
#[derive(Debug, Clone, Copy, PartialEq, Eq, Structural)]
pub enum Item {
    Stone,
    Diamond,
    Stick,
    WoodenSword,
    StoneAxe,
    IronPickaxe,
    DiamondShovel,
    LeatherHelmet,
}

impl Item {
    /// The item's static durability: the accumulated-damage threshold at or
    /// above which the item counts as broken, or `None` for an item that is
    /// not damageable.
    pub open spec fn spec_durability(self) -> Option<u32> {
        match self {
            Item::Stone => None,
            Item::Diamond => None,
            Item::Stick => None,
            Item::WoodenSword => Some(59u32),
            Item::StoneAxe => Some(131u32),
            Item::IronPickaxe => Some(250u32),
            Item::DiamondShovel => Some(1561u32),
            Item::LeatherHelmet => Some(55u32),
        }
    }

    /// Returns the item's static durability, or `None` if it is not damageable.
    #[verifier::when_used_as_spec(spec_durability)]
    pub fn durability(self) -> (r: Option<u32>)
        ensures
            r == self.spec_durability(),
    {
        match self {
            Item::Stone => None,
            Item::Diamond => None,
            Item::Stick => None,
            Item::WoodenSword => Some(59u32),
            Item::StoneAxe => Some(131u32),
            Item::IronPickaxe => Some(250u32),
            Item::DiamondShovel => Some(1561u32),
            Item::LeatherHelmet => Some(55u32),
        }
    }
}

} // verus!
