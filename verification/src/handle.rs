//! The inventory handle: shared ownership of one backing, with scoped,
//! locked access to single slots by `(Area, index)` address.
use vstd::prelude::*;

use std::sync::Arc;

use crate::layout::Area;
use crate::layout::InventoryBacking;
use crate::slots::SlotGuard;

verus! {

/// A handle to an inventory.
///
/// An inventory is composed of one or more _areas_, each of which contains
/// one or more item stacks stored in an array.  Areas are defined by the
/// [`Area`] enum; examples include `Storage`, `Hotbar`, `Helmet`, `Offhand`,
/// and `CraftingInput`.
///
/// Note that an `Inventory` is a _handle_; it's backed by an `Arc`.  As such,
/// cloning it is cheap and creates a new handle to the same inventory:
/// mutation through one handle is visible through all others as soon as the
/// slot's lock is released.  Interior mutability is used to make this safe.
#[derive(Clone)]
pub struct Inventory {
    backing: Arc<InventoryBacking>,
}

impl Inventory {
    /// The backing this handle references.
    pub closed spec fn backing_model(self) -> InventoryBacking {
        *self.backing
    }

    /// The handle references a well-formed backing.  Construction through
    /// [`Inventory::new`] establishes this, and a backing never changes.
    pub open spec fn wf(self) -> bool {
        self.backing_model().well_formed()
    }

    /// Wraps a backing into a first handle; further handles come from
    /// [`Inventory::new_handle`].
    pub fn new(backing: InventoryBacking) -> (inv: Inventory)
        ensures
            inv.backing_model() == backing,
    {
        Inventory { backing: Arc::new(backing) }
    }

    /// Returns whether two `Inventory` handles point to the same backing
    /// inventory: identity of storage, not structural equality of contents.
    /// When it returns true, both handles reach the very same slots.
    ///
    /// Relies on std's Arc::ptr_eq: true exactly when both `Arc`s point to
    /// the same allocation.
    #[verifier::external_body]
    pub fn ptr_eq(&self, other: &Inventory) -> (r: bool)
        ensures
            r ==> self.backing_model() == other.backing_model(),
    {
        Arc::ptr_eq(&self.backing, &other.backing)
    }

    /// Gets the item at the given index within an area in this inventory,
    /// as an exclusive lock on that slot through which the caller may read
    /// or replace the slot's content (including setting it to empty).
    ///
    /// Returns `None` when this inventory does not define `area`, or when
    /// `index` lies at or beyond that area's declared slot count — never an
    /// out-of-bounds access.  Acquiring the lock blocks the calling thread
    /// until any concurrent holder of that same slot's lock releases it.
    ///
    /// # Note
    /// _Never_ keep two returned guards for the same inventory alive at
    /// once.  Deadlocks are not fun.
    pub fn item(&self, area: Area, index: usize) -> (r: Option<SlotGuard<'_>>)
        requires
            self.wf(),
        ensures
            r is Some <==> self.backing_model().spec_index_of(area, index as int) is Some,
    {
        match self.backing.area_slice(area) {
            None => None,
            Some(slice) => {
                if index < slice.len() {
                    Some(slice[index].lock())
                } else {
                    None
                }
            },
        }
    }

    /// Creates a new handle to the same inventory.
    ///
    /// This operation is the same as calling `clone()`, but it's more
    /// explicit in its intent.
    ///
    /// Relies on std's Arc::clone: the new `Arc` points to the same
    /// allocation, so the new handle observes the very same slots.
    #[verifier::external_body]
    pub fn new_handle(&self) -> (inv: Inventory)
        ensures
            inv.backing_model() == self.backing_model(),
    {
        Inventory { backing: Arc::clone(&self.backing) }
    }
}

} // verus!
