//! Inventory layout: areas and the backing that maps each `(Area, index)`
//! address onto one position of a flat slot array.
//!
//! The layout is fixed at construction time: each declared area receives a
//! contiguous range of the flat array, ranges of distinct areas are disjoint,
//! and the mapping never changes for the lifetime of one backing.
use vstd::prelude::*;

use crate::slots::Slot;

verus! {

/// A named logical region of an inventory, with a fixed slot count assigned
/// at backing-construction time.
#[derive(Debug, Clone, Copy, PartialEq, Eq, Hash, Structural)]
pub enum Area {
    Storage,
    Hotbar,
    Helmet,
    Chestplate,
    Leggings,
    Boots,
    Offhand,
    CraftingInput,
    CraftingOutput,
}

/// One row of a backing's offset table: the contiguous range
/// `offset .. offset + len` of the flat slot array that belongs to `area`.
#[derive(Debug, Clone, Copy, PartialEq, Eq, Structural)]
pub struct AreaEntry {
    pub area: Area,
    pub offset: usize,
    pub len: usize,
}

/// Whether a declared layout names each area at most once.
pub open spec fn distinct_areas(layout: Seq<(Area, usize)>) -> bool {
    forall|i: int, j: int|
        0 <= i < j < layout.len() ==> (#[trigger] layout[i]).0 != (#[trigger] layout[j]).0
}

/// The total slot count of the first `i` rows of a declared layout.
pub open spec fn prefix_total(layout: Seq<(Area, usize)>, i: int) -> int
    decreases i,
{
    if i <= 0 {
        0
    } else {
        prefix_total(layout, i - 1) + layout[i - 1].1
    }
}

/// The total slot count of the first `i` rows of an offset table.
pub open spec fn entries_total(s: Seq<AreaEntry>, i: int) -> int
    decreases i,
{
    if i <= 0 {
        0
    } else {
        entries_total(s, i - 1) + s[i - 1].len
    }
}

/// The layout engine: an immutable offset table over one flat, fixed-length
/// array of independently lockable slots.
///
/// Every valid `(Area, index)` address resolves to exactly one slot of the
/// flat array; an index outside an area's declared range resolves to nothing,
/// never to out-of-bounds access.
pub struct InventoryBacking {
    areas: Vec<AreaEntry>,
    slots: Vec<Slot>,
}

impl InventoryBacking {
    /// The offset table, one row per declared area.
    pub closed spec fn areas_model(self) -> Seq<AreaEntry> {
        self.areas@
    }

    /// The flat slot array.
    pub closed spec fn slots_model(self) -> Seq<Slot> {
        self.slots@
    }

    /// Rows name pairwise distinct areas, their ranges tile the flat array
    /// contiguously from position zero, and the last range ends exactly at
    /// the array's end.  Construction establishes this and nothing ever
    /// mutates a backing, so every backing a caller can hold satisfies it.
    pub closed spec fn well_formed(self) -> bool {
        &&& forall|i: int, j: int|
            0 <= i < j < self.areas@.len() ==> (#[trigger] self.areas@[i]).area != (
            #[trigger] self.areas@[j]).area
        &&& forall|i: int|
            0 <= i < self.areas@.len() ==> (#[trigger] self.areas@[i]).offset == entries_total(
                self.areas@,
                i,
            )
        &&& self.slots@.len() == entries_total(self.areas@, self.areas@.len() as int)
    }

    /// The combined length of rows `i..j` only grows: row `i`'s range ends at
    /// or before the start of everything that row `j` counts.
    proof fn lemma_totals_ordered(s: Seq<AreaEntry>, i: int, j: int)
        requires
            0 <= i < j <= s.len(),
        ensures
            entries_total(s, i) + s[i].len <= entries_total(s, j),
        decreases j - i,
    {
        if j > i + 1 {
            Self::lemma_totals_ordered(s, i, j - 1);
        }
    }

    /// Whether this backing defines `area` at all.
    pub open spec fn has_area(self, area: Area) -> bool {
        exists|k: int|
            0 <= k < self.areas_model().len() && (#[trigger] self.areas_model()[k]).area == area
    }

    /// The offset-table row for `area` (meaningful only when `has_area`).
    pub open spec fn area_entry(self, area: Area) -> AreaEntry {
        self.areas_model()[choose|k: int|
            0 <= k < self.areas_model().len() && (#[trigger] self.areas_model()[k]).area == area]
    }

    /// The position of address `(area, index)` in the flat slot array, or
    /// `None` when the backing does not define `area` or `index` lies at or
    /// beyond the area's declared slot count.
    pub open spec fn spec_index_of(self, area: Area, index: int) -> Option<int> {
        if self.has_area(area) && 0 <= index < self.area_entry(area).len {
            Some(self.area_entry(area).offset + index)
        } else {
            None
        }
    }

    /// Every row of the offset table is unique for its area: any row naming
    /// `area` is the row `area_entry` denotes.  This is how a caller who
    /// knows the layout a backing was built from resolves an area to its
    /// declared range.
    pub proof fn lemma_entry_unique(self, k: int, area: Area)
        requires
            self.well_formed(),
            0 <= k < self.areas_model().len(),
            self.areas_model()[k].area == area,
        ensures
            self.has_area(area),
            self.area_entry(area) == self.areas_model()[k],
    {
        let k2 = choose|k2: int|
            0 <= k2 < self.areas_model().len() && (#[trigger] self.areas_model()[k2]).area == area;
        if k2 != k {
            assert(self.areas_model()[k].area != self.areas_model()[k2].area);
        }
    }

    /// Rows later in the table lie wholly after earlier ones.
    proof fn lemma_rows_ordered(self, i: int, j: int)
        requires
            self.well_formed(),
            0 <= i < j < self.areas_model().len(),
        ensures
            self.areas_model()[i].offset + self.areas_model()[i].len
                <= self.areas_model()[j].offset,
    {
        Self::lemma_totals_ordered(self.areas@, i, j);
    }

    /// Every row's range lies within the flat slot array.
    proof fn lemma_row_in_bounds(self, k: int)
        requires
            self.well_formed(),
            0 <= k < self.areas_model().len(),
        ensures
            self.areas_model()[k].offset + self.areas_model()[k].len <= self.slots_model().len(),
    {
        Self::lemma_totals_ordered(self.areas@, k, self.areas@.len() as int);
    }

    /// As `lemma_totals_ordered`, over a declared layout instead of an
    /// offset table.
    proof fn lemma_prefix_totals_ordered(s: Seq<(Area, usize)>, i: int, j: int)
        requires
            0 <= i < j <= s.len(),
        ensures
            prefix_total(s, i) + s[i].1 <= prefix_total(s, j),
        decreases j - i,
    {
        if j > i + 1 {
            Self::lemma_prefix_totals_ordered(s, i, j - 1);
        }
    }

    /// An offset table whose rows carry the lengths of a declared layout
    /// counts the same totals as the layout itself.
    proof fn lemma_totals_agree(entries: Seq<AreaEntry>, layout: Seq<(Area, usize)>, i: int)
        requires
            0 <= i <= entries.len(),
            i <= layout.len(),
            forall|k: int| 0 <= k < i ==> (#[trigger] entries[k]).len == layout[k].1,
        ensures
            entries_total(entries, i) == prefix_total(layout, i),
        decreases i,
    {
        if i > 0 {
            Self::lemma_totals_agree(entries, layout, i - 1);
        }
    }

    /// Builds a backing from a declared layout: one row per `(area, slot
    /// count)` pair, assigned contiguous ranges of a flat array of initially
    /// empty slots, in declaration order.
    ///
    /// Returns `None` exactly when the layout names some area twice or its
    /// total slot count does not fit in `usize`; the area-to-range mapping of
    /// a built backing never changes afterwards.
    pub fn new(layout: &Vec<(Area, usize)>) -> (r: Option<InventoryBacking>)
        ensures
            r is Some <==> distinct_areas(layout@) && prefix_total(layout@, layout@.len() as int)
                <= usize::MAX,
            r matches Some(b) ==> {
                &&& b.well_formed()
                &&& b.areas_model().len() == layout@.len()
                &&& forall|i: int|
                    0 <= i < layout@.len() ==> (#[trigger] b.areas_model()[i]).area == layout@[i].0
                        && b.areas_model()[i].len == layout@[i].1 && b.areas_model()[i].offset
                        == prefix_total(layout@, i)
                &&& b.slots_model().len() == prefix_total(layout@, layout@.len() as int)
            },
    {
        let n = layout.len();
        let mut ki: usize = 0;
        while ki < n
            invariant
                n == layout@.len(),
                ki <= n,
                forall|i: int, j: int|
                    0 <= i < j < n && i < ki ==> (#[trigger] layout@[i]).0 != (
                    #[trigger] layout@[j]).0,
            decreases n - ki,
        {
            let mut kj: usize = ki + 1;
            while kj < n
                invariant
                    n == layout@.len(),
                    ki < kj,
                    kj <= n,
                    forall|j: int| ki < j < kj ==> layout@[ki as int].0 != (#[trigger] layout@[j]).0,
                decreases n - kj,
            {
                if layout[ki].0 == layout[kj].0 {
                    return None;
                }
                kj = kj + 1;
            }
            ki = ki + 1;
        }
        let mut areas: Vec<AreaEntry> = Vec::new();
        let mut slots: Vec<Slot> = Vec::new();
        let mut idx: usize = 0;
        while idx < n
            invariant
                n == layout@.len(),
                idx <= n,
                distinct_areas(layout@),
                areas@.len() == idx,
                forall|i: int|
                    0 <= i < idx ==> (#[trigger] areas@[i]).area == layout@[i].0 && areas@[i].len
                        == layout@[i].1 && areas@[i].offset == prefix_total(layout@, i),
                slots@.len() == prefix_total(layout@, idx as int),
            decreases n - idx,
        {
            let pair = layout[idx];
            let offset = slots.len();
            match offset.checked_add(pair.1) {
                Some(_) => {},
                None => {
                    proof {
                        Self::lemma_prefix_totals_ordered(layout@, idx as int, n as int);
                    }
                    return None;
                },
            }
            areas.push(AreaEntry { area: pair.0, offset, len: pair.1 });
            let mut c: usize = 0;
            while c < pair.1
                invariant
                    c <= pair.1,
                    offset + pair.1 <= usize::MAX,
                    slots@.len() == offset + c,
                decreases pair.1 - c,
            {
                slots.push(Slot::new(None));
                c = c + 1;
            }
            idx = idx + 1;
        }
        let total: usize = slots.len();
        proof {
            assert(prefix_total(layout@, n as int) == total);
            Self::lemma_totals_agree(areas@, layout@, n as int);
            assert forall|i: int| 0 <= i < areas@.len() implies (#[trigger] areas@[i]).offset
                == entries_total(areas@, i) by {
                Self::lemma_totals_agree(areas@, layout@, i);
            }
        }
        Some(InventoryBacking { areas, slots })
    }

    /// Returns the contiguous sub-range of slots belonging to `area`, or
    /// `None` if this backing does not define that area at all.  An index out
    /// of range within a present area is not this function's concern: it is
    /// surfaced at the index-lookup step.
    pub fn area_slice(&self, area: Area) -> (r: Option<&[Slot]>)
        requires
            self.well_formed(),
        ensures
            match r {
                Some(s) => self.has_area(area) && self.area_entry(area).offset + self.area_entry(
                    area,
                ).len <= self.slots_model().len() && s@.len() == self.area_entry(area).len && s@
                    == self.slots_model().subrange(
                    self.area_entry(area).offset as int,
                    self.area_entry(area).offset + self.area_entry(area).len,
                ),
                None => !self.has_area(area),
            },
    {
        let mut k: usize = 0;
        while k < self.areas.len()
            invariant
                self.well_formed(),
                0 <= k <= self.areas@.len(),
                forall|k2: int| 0 <= k2 < k ==> (#[trigger] self.areas@[k2]).area != area,
            decreases self.areas@.len() - k,
        {
            let entry = self.areas[k];
            if entry.area == area {
                let total: usize = self.slots.len();
                proof {
                    self.lemma_entry_unique(k as int, area);
                    self.lemma_row_in_bounds(k as int);
                    assert(entry == self.areas@[k as int]);
                    assert(entry.offset + entry.len <= total);
                }
                let s = vstd::slice::slice_subrange(
                    self.slots.as_slice(),
                    entry.offset,
                    entry.offset + entry.len,
                );
                return Some(s);
            }
            k = k + 1;
        }
        proof {
            assert forall|k2: int|
                0 <= k2 < self.areas_model().len() implies (#[trigger] self.areas_model()[k2]).area
                != area by {}
        }
        None
    }

    /// The declared slot count of `area`, or `None` if this backing does not
    /// define it.
    pub fn area_len(&self, area: Area) -> (r: Option<usize>)
        requires
            self.well_formed(),
        ensures
            match r {
                Some(n) => self.has_area(area) && n == self.area_entry(area).len,
                None => !self.has_area(area),
            },
    {
        match self.area_slice(area) {
            Some(s) => Some(s.len()),
            None => None,
        }
    }
}

/// Area isolation at the layout level: two distinct valid addresses always
/// resolve to two distinct positions of the flat slot array, so the slot
/// reached through one address is never the slot of any other — across areas
/// and within one area alike.  This is also why operations on distinct
/// addresses contend on different locks.
pub proof fn lemma_distinct_addresses_distinct_slots(
    b: InventoryBacking,
    a1: Area,
    i1: int,
    a2: Area,
    i2: int,
)
    requires
        b.well_formed(),
        b.spec_index_of(a1, i1) is Some,
        b.spec_index_of(a2, i2) is Some,
        !(a1 == a2 && i1 == i2),
    ensures
        b.spec_index_of(a1, i1) != b.spec_index_of(a2, i2),
{
    let k1 = choose|k: int|
        0 <= k < b.areas_model().len() && (#[trigger] b.areas_model()[k]).area == a1;
    let k2 = choose|k: int|
        0 <= k < b.areas_model().len() && (#[trigger] b.areas_model()[k]).area == a2;
    if a1 == a2 {
        assert(i1 != i2);
    } else {
        assert(k1 != k2);
        if k1 < k2 {
            b.lemma_rows_ordered(k1, k2);
        } else {
            b.lemma_rows_ordered(k2, k1);
        }
    }
}

} // verus!
