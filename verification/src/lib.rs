//! Conversion between ETRS89 and OSGB36 British National Grid coordinates
//! with the OSTN02 correction surface, in exact fixed-point arithmetic.
//!
//! Planar coordinates and shifts are whole millimetres, the resolution at
//! which planar results are published. The stored values of the grid are
//! handed to the library in a `ShiftGrid`, so every result is fixed by the
//! arguments and stated exactly in the function's contract.

pub mod bounds;
pub mod constants;
pub mod error;
pub mod grid;
pub mod key;
pub mod ostn02;
pub mod rounding;
pub mod table;

pub use crate::bounds::check;
pub use crate::constants::{
    CELL_AREA, CELL_SIZE, MAX_EASTING, MAX_ITERATIONS, MAX_NORTHING, MIN_X_SHIFT, MIN_Y_SHIFT,
    MIN_Z_SHIFT,
};
pub use crate::error::ConversionError;
pub use crate::grid::{get_ostn_ref, interpolate, ostn02_shifts, shift_from_entry, weigh};
pub use crate::key::grid_key;
pub use crate::ostn02::{convert_etrs89_to_osgb36, convert_osgb36_to_etrs89};
pub use crate::rounding::{round_ratio, round_to_nearest_mm};
pub use crate::table::ShiftGrid;
