//! Inclusive bounds validation.

use vstd::prelude::*;
use vstd::std_specs::cmp::PartialOrdSpec;
use core::cmp::Ordering;
use crate::error::ConversionError;

verus! {

/// `a` is ordered at or below `b` in the partial order that Verus knows for
/// `T`.
pub open spec fn at_most<T: PartialOrd>(a: T, b: T) -> bool {
    a.partial_cmp_spec(&b) matches Some(Ordering::Less | Ordering::Equal)
}

/// `value` lies in the closed interval from `bounds.0` to `bounds.1`.
pub open spec fn within<T: PartialOrd>(value: T, bounds: (T, T)) -> bool {
    at_most(bounds.0, value) && at_most(value, bounds.1)
}

/// Bounds checking for input values: both ends of `bounds` are accepted.
///
/// The value is handed back unchanged when it is accepted, and a rejected
/// value is out of range. For every type whose comparison operators are
/// known to decide its partial order, the integers among them, acceptance
/// is exactly membership of the closed interval.
pub fn check<T>(to_check: T, bounds: (T, T)) -> (res: Result<T, ConversionError>)
    where T: PartialOrd + Copy
    ensures
        res is Ok ==> res == Ok::<T, ConversionError>(to_check),
        res is Err ==> res == Err::<T, ConversionError>(ConversionError::OutOfRange),
        T::obeys_partial_cmp_spec() ==> (res is Ok <==> within(to_check, bounds)),
{
    if bounds.0 <= to_check && to_check <= bounds.1 {
        Ok(to_check)
    } else {
        Err(ConversionError::OutOfRange)
    }
}

/// On whole numbers the closed interval is the usual one: both bounds are
/// in it whenever it is not empty, and nothing below the lower or above the
/// upper bound is, however close.
pub proof fn lemma_bounds_are_inclusive(value: i64, lower: i64, upper: i64)
    ensures
        within(value, (lower, upper)) <==> lower <= value <= upper,
        lower <= upper ==> within(lower, (lower, upper)) && within(upper, (lower, upper)),
        value < lower || value > upper ==> !within(value, (lower, upper)),
{
}

} // verus!
