//! A game-entity inventory: named storage areas over a flat array of
//! independently lockable slots, accessed through cheaply cloneable handles.
mod catalog;
mod handle;
mod layout;
mod slots;
mod stack;

pub use catalog::Item;
pub use handle::Inventory;
pub use layout::Area;
pub use layout::AreaEntry;
pub use layout::InventoryBacking;
pub use layout::distinct_areas;
pub use layout::lemma_distinct_addresses_distinct_slots;
pub use layout::prefix_total;
pub use slots::Slot;
pub use slots::SlotGuard;
pub use slots::guarded_stack;
pub use stack::ItemStack;
pub use stack::lemma_add_remove_round_trip;
pub use stack::lemma_damage_monotone;
pub use stack::lemma_remove_insufficient;
pub use stack::spec_damaged_times;
