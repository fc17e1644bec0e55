//! The ways in which a conversion can fail.

use vstd::prelude::*;

verus! {

/// Why a conversion produced no coordinates.
#[derive(Clone, Copy, Debug, PartialEq, Eq, Structural)]
pub enum ConversionError {
    /// An input lies outside the bounding envelope it was checked against.
    OutOfRange,
    /// A corner of the enclosing grid cell has no OSTN02 correction.
    MissingGridCorrection,
    /// An iterative solve used up its iteration budget.
    ConvergenceFailure,
}

} // verus!
