//! The shift between ETRS89 and OSGB36 grid coordinates, and its inverse.

use vstd::prelude::*;
use crate::bounds::check;
use crate::constants::{MAX_EASTING, MAX_ITERATIONS, MAX_NORTHING};
use crate::error::ConversionError;
use crate::grid::{grid_shift, in_envelope, lemma_shift_magnitude, ostn02_shifts};
use crate::table::{Entries, ShiftGrid};

verus! {

/// A point or a failure with its coordinates widened to mathematical
/// integers.
pub open spec fn widen_point(res: Result<(i64, i64), ConversionError>) -> Result<
    (int, int),
    ConversionError,
> {
    match res {
        Ok(p) => Ok((p.0 as int, p.1 as int)),
        Err(e) => Err(e),
    }
}

/// The OSGB36 point of the ETRS89 point `(e, n)`: the point moved by the
/// easting and northing shifts found at it.
pub open spec fn shifted(entries: Entries, e: int, n: int) -> Result<(int, int), ConversionError> {
    match grid_shift(entries, e, n) {
        Ok(s) => Ok((e + s.0, n + s.1)),
        Err(err) => Err(err),
    }
}

/// The envelope is enforced before anything is looked up: outside it both
/// conversions are out of range whatever the table holds, its corners
/// belong to it, and inside it the forward shift fails only for want of a
/// correction.
pub proof fn lemma_envelope_is_enforced(entries: Entries, e: int, n: int)
    ensures
        in_envelope(e, n) <==> 0 <= e <= MAX_EASTING && 0 <= n <= MAX_NORTHING,
        !in_envelope(e, n) ==> shifted(entries, e, n) == Err::<(int, int), ConversionError>(
            ConversionError::OutOfRange,
        ) && unshifted(entries, e, n) == Err::<(int, int), ConversionError>(ConversionError::OutOfRange),
        in_envelope(e, n) ==> shifted(entries, e, n) is Ok || shifted(entries, e, n) == Err::<
            (int, int),
            ConversionError,
        >(ConversionError::MissingGridCorrection),
{
}

/// Perform ETRS89 to OSGB36 conversion, using OSTN02 data.
///
/// Both coordinates are millimetres. A point outside the planar envelope is
/// out of range, and a point in a cell with an absent corner has no
/// correction; everywhere else the point is moved by the shift found at it.
pub fn convert_etrs89_to_osgb36(grid: &ShiftGrid, eastings: &i64, northings: &i64) -> (res: Result<
    (i64, i64),
    ConversionError,
>)
    ensures
        widen_point(res) == shifted(grid@, *eastings as int, *northings as int),
{
    // ensure that we're within the boundaries
    match check(*eastings, (0, MAX_EASTING)) {
        Ok(_) => {},
        Err(e) => { return Err(e); },
    }
    match check(*northings, (0, MAX_NORTHING)) {
        Ok(_) => {},
        Err(e) => { return Err(e); },
    }
    // obtain OSTN02 corrections, and incorporate
    match ostn02_shifts(grid, eastings, northings) {
        Ok(shift) => {
            proof {
                lemma_shift_magnitude(grid@, *eastings as int, *northings as int);
            }
            Ok((*eastings + shift.0, *northings + shift.1))
        },
        Err(e) => Err(e),
    }
}

/// The outcome of refining an estimate of the ETRS89 point behind the
/// OSGB36 point `(e, n)`. The estimate is the point moved back by the shift
/// `last`; the shift is evaluated there, and the estimate stands once that
/// shift repeats `last` in easting and northing. Shifts are whole
/// millimetres and the tolerance is a hundredth of one, so only an
/// unchanged shift is within it. `budget` evaluations may be made.
pub open spec fn refined(
    entries: Entries,
    e: int,
    n: int,
    last: (int, int),
    budget: nat,
) -> Result<
    (int, int),
    ConversionError,
>
    decreases budget,
{
    if budget == 0 {
        Err(ConversionError::ConvergenceFailure)
    } else {
        match grid_shift(entries, e - last.0, n - last.1) {
            Err(err) => Err(err),
            Ok(s) => if s.0 == last.0 && s.1 == last.1 {
                Ok((e - s.0, n - s.1))
            } else {
                refined(entries, e, n, (s.0, s.1), (budget - 1) as nat)
            },
        }
    }
}

/// The ETRS89 point that the reverse solver finds for the OSGB36 point
/// `(e, n)`: the first estimate moves the point back by the shift found at
/// the point itself, and at most `MAX_ITERATIONS` refinements follow.
pub open spec fn unshifted(entries: Entries, e: int, n: int) -> Result<
    (int, int),
    ConversionError,
> {
    match grid_shift(entries, e, n) {
        Err(err) => Err(err),
        Ok(s) => refined(entries, e, n, (s.0, s.1), MAX_ITERATIONS as nat),
    }
}

/// An estimate that stands is an exact preimage: shifting it gives `(e, n)`.
pub proof fn lemma_refined_is_preimage(
    entries: Entries,
    e: int,
    n: int,
    last: (int, int),
    budget: nat,
)
    ensures
        refined(entries, e, n, last, budget) matches Ok(p) ==> shifted(entries, p.0, p.1) == Ok::<
            (int, int),
            ConversionError,
        >((e, n)),
    decreases budget,
{
    if budget > 0 {
        match grid_shift(entries, e - last.0, n - last.1) {
            Err(_) => {},
            Ok(s) => {
                if !(s.0 == last.0 && s.1 == last.1) {
                    lemma_refined_is_preimage(entries, e, n, (s.0, s.1), (budget - 1) as nat);
                }
            },
        }
    }
}

/// Whatever the reverse solver returns, the forward shift takes back to
/// where the solver started: un-shifting and then shifting is the identity
/// on every OSGB36 point for which the solver succeeds.
pub proof fn lemma_unshift_then_shift(entries: Entries, e: int, n: int)
    ensures
        unshifted(entries, e, n) matches Ok(p) ==> shifted(entries, p.0, p.1) == Ok::<(int, int), ConversionError>(
            (e, n),
        ),
{
    match grid_shift(entries, e, n) {
        Err(_) => {},
        Ok(s) => {
            lemma_refined_is_preimage(entries, e, n, (s.0, s.1), MAX_ITERATIONS as nat);
        },
    }
}

/// A round trip never drifts: where an ETRS89 point is shifted and the
/// reverse solver succeeds on the result, the point it finds shifts to the
/// very same OSGB36 point.
pub proof fn lemma_round_trip_agrees(entries: Entries, e: int, n: int)
    ensures
        shifted(entries, e, n) matches Ok(p) ==> (unshifted(entries, p.0, p.1) matches Ok(q) ==> shifted(entries, q.0, q.1)
            == shifted(entries, e, n)),
{
    if let Ok(p) = shifted(entries, e, n) {
        lemma_unshift_then_shift(entries, p.0, p.1);
    }
}

/// Convert OSGB36 coordinates to ETRS89 using OSTN02 data.
///
/// The shift is indexed by the ETRS89 point that is sought, so it is found
/// by fixed-point iteration from the shift at the OSGB36 point itself. The
/// iteration is capped: a point on which it does not settle within
/// `MAX_ITERATIONS` refinements is reported as a convergence failure.
pub fn convert_osgb36_to_etrs89(grid: &ShiftGrid, eastings: &i64, northings: &i64) -> (res: Result<
    (i64, i64),
    ConversionError,
>)
    ensures
        widen_point(res) == unshifted(grid@, *eastings as int, *northings as int),
        res matches Ok(p) ==> shifted(grid@, p.0 as int, p.1 as int) == Ok::<(int, int), ConversionError>(
            (*eastings as int, *northings as int),
        ),
{
    let e: i64 = *eastings;
    let n: i64 = *northings;
    proof {
        lemma_shift_magnitude(grid@, e as int, n as int);
    }
    // Apply reverse OSTN02 adjustments
    let (mut last_dx, mut last_dy): (i64, i64) = match ostn02_shifts(grid, eastings, northings) {
        Ok(shift) => (shift.0, shift.1),
        Err(err) => { return Err(err); },
    };
    let mut remaining: u32 = MAX_ITERATIONS;
    while remaining > 0
        invariant
            e == *eastings,
            n == *northings,
            in_envelope(e as int, n as int),
            -0x1_0000_0000 <= last_dx <= 0x1_0000_0000,
            -0x1_0000_0000 <= last_dy <= 0x1_0000_0000,
            unshifted(grid@, e as int, n as int) == refined(
                grid@,
                e as int,
                n as int,
                (last_dx as int, last_dy as int),
                remaining as nat,
            ),
        decreases remaining,
    {
        let x: i64 = e - last_dx;
        let y: i64 = n - last_dy;
        proof {
            lemma_shift_magnitude(grid@, x as int, y as int);
            lemma_unshift_then_shift(grid@, e as int, n as int);
        }
        match ostn02_shifts(grid, &x, &y) {
            Ok(shift) => {
                if shift.0 == last_dx && shift.1 == last_dy {
                    return Ok((x, y));
                }
                last_dx = shift.0;
                last_dy = shift.1;
            },
            Err(err) => { return Err(err); },
        }
        remaining = remaining - 1;
    }
    Err(ConversionError::ConvergenceFailure)
}

} // verus!
