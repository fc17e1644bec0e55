//! The fixed quantities of the transformation, in whole millimetres.

use vstd::prelude::*;

verus! {

/// Side of one cell of the correction grid: one kilometre.
pub const CELL_SIZE: i64 = 1_000_000;

/// Area of one cell of the correction grid, the common denominator of the
/// interpolation weights.
pub const CELL_AREA: i128 = 1_000_000_000_000;

/// Largest easting of the planar envelope; the smallest is zero.
pub const MAX_EASTING: i64 = 700_000_000;

/// Largest northing of the planar envelope; the smallest is zero.
pub const MAX_NORTHING: i64 = 1_250_000_000;

/// Smallest easting shift of the grid, the offset of its stored eastings.
pub const MIN_X_SHIFT: i64 = 86_275;

/// Smallest northing shift of the grid, the offset of its stored northings.
pub const MIN_Y_SHIFT: i64 = -81_603;

/// Smallest geoid height of the grid, the offset of its stored heights.
pub const MIN_Z_SHIFT: i64 = 43_982;

/// Most refinements that the reverse shift solver makes before it gives up.
pub const MAX_ITERATIONS: u32 = 50;

} // verus!
