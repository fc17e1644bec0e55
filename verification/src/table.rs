//! The shift table: what the OSTN02 grid stores for each of its points,
//! held by the kilometre indices of the point.

use vstd::prelude::*;
use std::collections::HashMap;
use crate::key::bit_pattern;

verus! {

broadcast use vstd::std_specs::hash::group_hash_axioms;

/// What a shift table holds: the stored easting, northing and height of
/// each grid point it knows, by the point's easting and northing index.
pub type Entries = Map<(int, int), (i32, i32, i32)>;

/// What `entries` holds for the grid point `(easting_index,
/// northing_index)`, or nothing.
pub open spec fn entry_at(entries: Entries, easting_index: int, northing_index: int) -> Option<
    (i32, i32, i32),
> {
    if entries.contains_key((easting_index, northing_index)) {
        Some(entries[(easting_index, northing_index)])
    } else {
        None
    }
}

/// The place of a grid point in the table: the bit patterns of its two
/// indices side by side, so that no two points share a place.
pub open spec fn slot(easting_index: int, northing_index: int) -> int {
    (bit_pattern(northing_index) * 0x1_0000_0000 + bit_pattern(easting_index)) as int
}

/// The stored values of the OSTN02 grid, read-only once it is filled.
pub struct ShiftGrid {
    entries: HashMap<u64, (i32, i32, i32)>,
}

impl View for ShiftGrid {
    type V = Entries;

    closed spec fn view(&self) -> Entries {
        Map::new(
            |point: (int, int)|
                i32::MIN <= point.0 <= i32::MAX && i32::MIN <= point.1 <= i32::MAX
                    && self.entries@.contains_key(slot(point.0, point.1) as u64),
            |point: (int, int)| self.entries@[slot(point.0, point.1) as u64],
        )
    }
}

fn slot_of(easting_index: i32, northing_index: i32) -> (place: u64)
    ensures
        place == slot(easting_index as int, northing_index as int),
{
    let east: u64 = if easting_index >= 0 {
        easting_index as u64
    } else {
        (easting_index + i32::MAX + 1) as u64 + 0x8000_0000
    };
    let north: u64 = if northing_index >= 0 {
        northing_index as u64
    } else {
        (northing_index + i32::MAX + 1) as u64 + 0x8000_0000
    };
    north * 0x1_0000_0000 + east
}

impl ShiftGrid {
    /// A table that holds nothing.
    pub fn new() -> (grid: ShiftGrid)
        ensures
            grid@ == Map::<(int, int), (i32, i32, i32)>::empty(),
    {
        let grid = ShiftGrid { entries: HashMap::new() };
        assert(grid@ =~= Map::<(int, int), (i32, i32, i32)>::empty());
        grid
    }

    /// Stores `entry` for the grid point `(easting_index, northing_index)`,
    /// in place of what the table held for it.
    pub fn insert(&mut self, easting_index: i32, northing_index: i32, entry: (i32, i32, i32))
        ensures
            final(self)@ == old(self)@.insert(
                (easting_index as int, northing_index as int),
                entry,
            ),
    {
        let place = slot_of(easting_index, northing_index);
        self.entries.insert(place, entry);
        assert(self@ =~= old(self)@.insert((easting_index as int, northing_index as int), entry));
    }

    /// What the table holds for the grid point `(easting_index,
    /// northing_index)`.
    pub fn lookup(&self, easting_index: i32, northing_index: i32) -> (entry: Option<
        (i32, i32, i32),
    >)
        ensures
            entry == entry_at(self@, easting_index as int, northing_index as int),
    {
        let place = slot_of(easting_index, northing_index);
        match self.entries.get(&place) {
            Some(found) => Some(*found),
            None => None,
        }
    }
}

} // verus!
