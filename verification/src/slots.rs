//! Slots: one independently lockable storage location per item stack.
//!
//! Each slot guards an `Option<ItemStack>` behind its own mutual-exclusion
//! lock, so operations on distinct slots never serialize against each other.
//! The lock itself comes from the `parking_lot` crate; everything Verus
//! believes about it is stated on the small trusted wrappers below.
use vstd::prelude::*;

use crate::stack::ItemStack;

verus! {

/// One storage location: an `Option<ItemStack>` (empty vs. occupied) behind
/// its own mutual-exclusion lock.
#[verifier::external_body]
pub struct Slot {
    inner: parking_lot::Mutex<Option<ItemStack>>,
}

/// Exclusive, scoped access to one slot's content, held for as long as the
/// guard is alive and released when it is dropped.
#[verifier::external_body]
pub struct SlotGuard<'a> {
    inner: parking_lot::MutexGuard<'a, Option<ItemStack>>,
}

/// The content a [`SlotGuard`] gives exclusive access to.  While a guard is
/// held no other thread can change the slot, so the content is determined by
/// the guard value itself: reads return it and writes replace it.
pub uninterp spec fn guarded_stack(g: SlotGuard) -> Option<ItemStack>;

impl Slot {
    /// Creates a slot holding the given content, unlocked.
    ///
    /// Relies on parking_lot::Mutex::new: creates a new unlocked mutex around
    /// the given value.
    #[verifier::external_body]
    pub fn new(content: Option<ItemStack>) -> (s: Slot) {
        Slot { inner: parking_lot::Mutex::new(content) }
    }

    /// Acquires this slot's exclusive lock, blocking the calling thread until
    /// any concurrent holder of the same slot's lock releases it.
    ///
    /// Nothing is assumed about the content found behind the lock: another
    /// holder may have replaced it since this slot was last observed.
    ///
    /// # Hazard
    /// _Never_ keep two guards for the same slot alive at once in one thread:
    /// the second acquisition deadlocks that thread against itself.
    ///
    /// Relies on parking_lot::Mutex::lock: blocks until the lock can be
    /// acquired and returns a guard with exclusive access to the value.
    #[verifier::external_body]
    pub fn lock(&self) -> (g: SlotGuard<'_>) {
        SlotGuard { inner: self.inner.lock() }
    }
}

impl<'a> SlotGuard<'a> {
    /// Reads the slot content this guard protects.
    ///
    /// Relies on parking_lot::MutexGuard's Deref impl: dereferencing the
    /// guard yields the value the lock protects.
    #[verifier::external_body]
    pub fn get(&self) -> (r: Option<ItemStack>)
        ensures
            r == guarded_stack(*self),
    {
        (*self.inner).clone()
    }

    /// Replaces the slot content this guard protects; the next acquirer of
    /// the same slot will observe it.
    ///
    /// Relies on parking_lot::MutexGuard's DerefMut impl: assigning through
    /// the guard replaces the value the lock protects.
    #[verifier::external_body]
    pub fn set(&mut self, content: Option<ItemStack>)
        ensures
            guarded_stack(*final(self)) == content,
    {
        *self.inner = content;
    }
}

} // verus!
