//! The grid shift interpolator: the OSTN02 corrections at the corners of a
//! kilometre cell, taken from a shift table and blended by the position
//! within the cell.

use vstd::prelude::*;
use crate::constants::{
    CELL_AREA, CELL_SIZE, MAX_EASTING, MAX_NORTHING, MIN_X_SHIFT, MIN_Y_SHIFT, MIN_Z_SHIFT,
};
use crate::error::ConversionError;
use crate::rounding::{
    lemma_round_between, lemma_round_exact, round_half_away, round_to_nearest_mm,
};
use crate::table::{entry_at, Entries, ShiftGrid};

verus! {

/// A shift with its components widened to mathematical integers.
pub open spec fn ints(s: (i64, i64, i64)) -> (int, int, int) {
    (s.0 as int, s.1 as int, s.2 as int)
}

/// A shift or a failure with its components widened to mathematical
/// integers.
pub open spec fn widen(res: Result<(i64, i64, i64), ConversionError>) -> Result<
    (int, int, int),
    ConversionError,
> {
    match res {
        Ok(s) => Ok(ints(s)),
        Err(e) => Err(e),
    }
}

/// The shift that a table entry stands for: each stored value raised by the
/// smallest shift of its kind. An absent entry is a missing correction.
pub open spec fn entry_shift(entry: Option<(i32, i32, i32)>) -> Result<
    (int, int, int),
    ConversionError,
> {
    match entry {
        Some(raw) => Ok((raw.0 + MIN_X_SHIFT, raw.1 + MIN_Y_SHIFT, raw.2 + MIN_Z_SHIFT)),
        None => Err(ConversionError::MissingGridCorrection),
    }
}

/// The shift at the grid point with the given kilometre indices, by what
/// `entries` holds for it.
pub open spec fn corner_shift(entries: Entries, easting_index: int, northing_index: int) -> Result<
    (int, int, int),
    ConversionError,
> {
    entry_shift(entry_at(entries, easting_index, northing_index))
}

/// Turns what the table holds for a grid point into its shift in
/// millimetres.
pub fn shift_from_entry(entry: Option<(i32, i32, i32)>) -> (res: Result<
    (i64, i64, i64),
    ConversionError,
>)
    ensures
        widen(res) == entry_shift(entry),
{
    match entry {
        Some(raw) => Ok(
            (raw.0 as i64 + MIN_X_SHIFT, raw.1 as i64 + MIN_Y_SHIFT, raw.2 as i64 + MIN_Z_SHIFT),
        ),
        None => Err(ConversionError::MissingGridCorrection),
    }
}

/// Looks up the OSTN02 shift at the grid point with kilometre indices `x`
/// (easting) and `y` (northing).
pub fn get_ostn_ref(grid: &ShiftGrid, x: &i32, y: &i32) -> (res: Result<
    (i64, i64, i64),
    ConversionError,
>)
    ensures
        widen(res) == corner_shift(grid@, *x as int, *y as int),
{
    shift_from_entry(grid.lookup(*x, *y))
}

/// The four bilinear weights of a point that lies `dx` east and `dy` north
/// of its cell's south-west corner, as areas: south-west, south-east,
/// north-west and north-east corner in turn. Each corner is weighted by the
/// rectangle between the point and the opposite corner.
pub open spec fn weights(dx: int, dy: int) -> (int, int, int, int) {
    (
        (CELL_SIZE - dx) * (CELL_SIZE - dy),
        dx * (CELL_SIZE - dy),
        (CELL_SIZE - dx) * dy,
        dx * dy,
    )
}

/// The weighted sum of four corner values, over the common denominator
/// `CELL_AREA`.
pub open spec fn weighted_sum(dx: int, dy: int, s0: int, s1: int, s2: int, s3: int) -> int {
    let w = weights(dx, dy);
    w.0 * s0 + w.1 * s1 + w.2 * s2 + w.3 * s3
}

/// The bilinear blend of four corner values at the offset `(dx, dy)`,
/// rounded to the nearest millimetre.
pub open spec fn bilinear(dx: int, dy: int, s0: int, s1: int, s2: int, s3: int) -> int {
    round_half_away(weighted_sum(dx, dy, s0, s1, s2, s3), CELL_AREA as int)
}

/// The smallest of four values.
pub open spec fn least(s0: int, s1: int, s2: int, s3: int) -> int {
    let a = if s0 <= s1 { s0 } else { s1 };
    let b = if s2 <= s3 { s2 } else { s3 };
    if a <= b { a } else { b }
}

/// The largest of four values.
pub open spec fn greatest(s0: int, s1: int, s2: int, s3: int) -> int {
    let a = if s0 >= s1 { s0 } else { s1 };
    let b = if s2 >= s3 { s2 } else { s3 };
    if a >= b { a } else { b }
}

/// Within a cell no weight is negative, and the four weights add up to the
/// whole cell: as fractions of it they add up to one.
pub proof fn lemma_weights_sum_to_one(dx: int, dy: int)
    requires
        0 <= dx < CELL_SIZE,
        0 <= dy < CELL_SIZE,
    ensures
        weights(dx, dy).0 >= 0,
        weights(dx, dy).1 >= 0,
        weights(dx, dy).2 >= 0,
        weights(dx, dy).3 >= 0,
        weights(dx, dy).0 + weights(dx, dy).1 + weights(dx, dy).2 + weights(dx, dy).3
            == CELL_AREA,
{
    let c = CELL_SIZE as int;
    assert((c - dx) * (c - dy) >= 0 && dx * (c - dy) >= 0 && (c - dx) * dy >= 0 && dx * dy >= 0)
        by (nonlinear_arith)
        requires
            0 <= dx < c,
            0 <= dy < c,
    ;
    assert((c - dx) * (c - dy) + dx * (c - dy) + (c - dx) * dy + dx * dy == c * c)
        by (nonlinear_arith);
}

/// A weighted sum lies between the cell area times the smallest corner value
/// and the cell area times the largest.
pub proof fn lemma_weighted_sum_bounds(dx: int, dy: int, s0: int, s1: int, s2: int, s3: int)
    requires
        0 <= dx < CELL_SIZE,
        0 <= dy < CELL_SIZE,
    ensures
        least(s0, s1, s2, s3) * CELL_AREA <= weighted_sum(dx, dy, s0, s1, s2, s3),
        weighted_sum(dx, dy, s0, s1, s2, s3) <= greatest(s0, s1, s2, s3) * CELL_AREA,
{
    lemma_weights_sum_to_one(dx, dy);
    let w = weights(dx, dy);
    let lo = least(s0, s1, s2, s3);
    let hi = greatest(s0, s1, s2, s3);
    lemma_term_bounds(w.0, s0, lo, hi);
    lemma_term_bounds(w.1, s1, lo, hi);
    lemma_term_bounds(w.2, s2, lo, hi);
    lemma_term_bounds(w.3, s3, lo, hi);
    assert(lo * (w.0 + w.1 + w.2 + w.3) == w.0 * lo + w.1 * lo + w.2 * lo + w.3 * lo)
        by (nonlinear_arith);
    assert(hi * (w.0 + w.1 + w.2 + w.3) == w.0 * hi + w.1 * hi + w.2 * hi + w.3 * hi)
        by (nonlinear_arith);
}

proof fn lemma_term_bounds(w: int, s: int, lo: int, hi: int)
    by (nonlinear_arith)
    requires
        w >= 0,
        lo <= s <= hi,
    ensures
        w * lo <= w * s <= w * hi,
{
}

/// The blend of four corner values never leaves their range.
pub proof fn lemma_bilinear_between_corners(dx: int, dy: int, s0: int, s1: int, s2: int, s3: int)
    requires
        0 <= dx < CELL_SIZE,
        0 <= dy < CELL_SIZE,
    ensures
        least(s0, s1, s2, s3) <= bilinear(dx, dy, s0, s1, s2, s3) <= greatest(s0, s1, s2, s3),
{
    lemma_weighted_sum_bounds(dx, dy, s0, s1, s2, s3);
    lemma_round_between(
        weighted_sum(dx, dy, s0, s1, s2, s3),
        CELL_AREA as int,
        least(s0, s1, s2, s3),
        greatest(s0, s1, s2, s3),
    );
}

/// At the south-west corner itself the blend is that corner's value,
/// whatever the other three corners hold.
pub proof fn lemma_bilinear_at_corner(s0: int, s1: int, s2: int, s3: int)
    ensures
        bilinear(0, 0, s0, s1, s2, s3) == s0,
{
    assert(weighted_sum(0, 0, s0, s1, s2, s3) == s0 * CELL_AREA) by (nonlinear_arith)
        requires
            weighted_sum(0, 0, s0, s1, s2, s3) == (CELL_SIZE - 0) * (CELL_SIZE - 0) * s0 + 0 * (
            CELL_SIZE - 0) * s1 + (CELL_SIZE - 0) * 0 * s2 + 0 * 0 * s3,
            CELL_AREA == CELL_SIZE * CELL_SIZE,
    ;
    lemma_round_exact(s0, CELL_AREA as int);
}

/// Sums four corner values, each weighted by its share of the cell's area,
/// at the offset `(dx, dy)` from the south-west corner.
pub fn weigh(dx: i64, dy: i64, s0: i64, s1: i64, s2: i64, s3: i64) -> (sum: i128)
    requires
        0 <= dx < CELL_SIZE,
        0 <= dy < CELL_SIZE,
    ensures
        sum == weighted_sum(dx as int, dy as int, s0 as int, s1 as int, s2 as int, s3 as int),
{
    let east: i128 = dx as i128;
    let north: i128 = dy as i128;
    let west: i128 = CELL_SIZE as i128 - east;
    let south: i128 = CELL_SIZE as i128 - north;
    proof {
        lemma_weights_sum_to_one(dx as int, dy as int);
    }
    let f0: i128 = west * south;
    let f1: i128 = east * south;
    let f2: i128 = west * north;
    let f3: i128 = east * north;
    proof {
        lemma_product_fits(f0 as int, s0 as int);
        lemma_product_fits(f1 as int, s1 as int);
        lemma_product_fits(f2 as int, s2 as int);
        lemma_product_fits(f3 as int, s3 as int);
    }
    f0 * (s0 as i128) + f1 * (s1 as i128) + f2 * (s2 as i128) + f3 * (s3 as i128)
}

/// Blends the shifts at the four corners of a cell, south-west, south-east,
/// north-west and north-east in turn, at the offset `(dx, dy)` from the
/// south-west corner, and rounds each component to the nearest millimetre.
pub fn interpolate(
    dx: i64,
    dy: i64,
    s0: (i64, i64, i64),
    s1: (i64, i64, i64),
    s2: (i64, i64, i64),
    s3: (i64, i64, i64),
) -> (r: (i64, i64, i64))
    requires
        0 <= dx < CELL_SIZE,
        0 <= dy < CELL_SIZE,
    ensures
        ints(r) == blend(dx as int, dy as int, ints(s0), ints(s1), ints(s2), ints(s3)),
{
    // bilinear interpolation, to obtain the actual shifts
    let se = weigh(dx, dy, s0.0, s1.0, s2.0, s3.0);
    let sn = weigh(dx, dy, s0.1, s1.1, s2.1, s3.1);
    let sg = weigh(dx, dy, s0.2, s1.2, s2.2, s3.2);
    proof {
        lemma_bilinear_between_corners(
            dx as int,
            dy as int,
            s0.0 as int,
            s1.0 as int,
            s2.0 as int,
            s3.0 as int,
        );
        lemma_bilinear_between_corners(
            dx as int,
            dy as int,
            s0.1 as int,
            s1.1 as int,
            s2.1 as int,
            s3.1 as int,
        );
        lemma_bilinear_between_corners(
            dx as int,
            dy as int,
            s0.2 as int,
            s1.2 as int,
            s2.2 as int,
            s3.2 as int,
        );
    }
    let rounded = round_to_nearest_mm(se, sn, sg, CELL_AREA);
    (rounded.0 as i64, rounded.1 as i64, rounded.2 as i64)
}

/// The point lies in the planar envelope, both ends of each axis included.
pub open spec fn in_envelope(e: int, n: int) -> bool {
    0 <= e <= MAX_EASTING && 0 <= n <= MAX_NORTHING
}

/// The blend of four corner shifts, component by component.
pub open spec fn blend(
    dx: int,
    dy: int,
    c0: (int, int, int),
    c1: (int, int, int),
    c2: (int, int, int),
    c3: (int, int, int),
) -> (int, int, int) {
    (
        bilinear(dx, dy, c0.0, c1.0, c2.0, c3.0),
        bilinear(dx, dy, c0.1, c1.1, c2.1, c3.1),
        bilinear(dx, dy, c0.2, c1.2, c2.2, c3.2),
    )
}

/// The OSTN02 shift at the ETRS89 point `(e, n)`: the blend of the shifts
/// at the four corners of the kilometre cell that holds the point, at the
/// point's offset from the south-west corner. A point outside the envelope
/// is out of range; a cell with an absent corner has no correction.
pub open spec fn grid_shift(entries: Entries, e: int, n: int) -> Result<
    (int, int, int),
    ConversionError,
> {
    if !in_envelope(e, n) {
        Err(ConversionError::OutOfRange)
    } else {
        let ei = e / (CELL_SIZE as int);
        let ni = n / (CELL_SIZE as int);
        match (
            corner_shift(entries, ei, ni),
            corner_shift(entries, ei + 1, ni),
            corner_shift(entries, ei, ni + 1),
            corner_shift(entries, ei + 1, ni + 1),
        ) {
            (Ok(c0), Ok(c1), Ok(c2), Ok(c3)) => Ok(
                blend(e % (CELL_SIZE as int), n % (CELL_SIZE as int), c0, c1, c2, c3),
            ),
            _ => Err(ConversionError::MissingGridCorrection),
        }
    }
}

/// At a grid point itself, the south-west corner of its cell, nothing is
/// blended: whenever the shift there exists, it is the shift that the table
/// holds for that point.
pub proof fn lemma_shift_at_grid_point(entries: Entries, easting_index: int, northing_index: int)
    ensures
        grid_shift(entries, easting_index * CELL_SIZE, northing_index * CELL_SIZE) matches Ok(s)
            ==> corner_shift(entries, easting_index, northing_index) == Ok::<
            (int, int, int),
            ConversionError,
        >(s),
{
    let c = CELL_SIZE as int;
    let e = easting_index * c;
    let n = northing_index * c;
    if grid_shift(entries, e, n) is Ok {
        vstd::arithmetic::div_mod::lemma_fundamental_div_mod_converse(e, c, easting_index, 0);
        vstd::arithmetic::div_mod::lemma_fundamental_div_mod_converse(n, c, northing_index, 0);
        let c0 = corner_shift(entries, easting_index, northing_index)->Ok_0;
        let c1 = corner_shift(entries, easting_index + 1, northing_index)->Ok_0;
        let c2 = corner_shift(entries, easting_index, northing_index + 1)->Ok_0;
        let c3 = corner_shift(entries, easting_index + 1, northing_index + 1)->Ok_0;
        lemma_bilinear_at_corner(c0.0, c1.0, c2.0, c3.0);
        lemma_bilinear_at_corner(c0.1, c1.1, c2.1, c3.1);
        lemma_bilinear_at_corner(c0.2, c1.2, c2.2, c3.2);
    }
}

/// Computes the OSTN02 easting, northing and geoid-height shifts at an
/// ETRS89 point given in millimetres, from the stored values in `grid`.
pub fn ostn02_shifts(grid: &ShiftGrid, x: &i64, y: &i64) -> (res: Result<
    (i64, i64, i64),
    ConversionError,
>)
    ensures
        widen(res) == grid_shift(grid@, *x as int, *y as int),
{
    if *x < 0 || *x > MAX_EASTING || *y < 0 || *y > MAX_NORTHING {
        return Err(ConversionError::OutOfRange);
    }
    let e_index: i32 = (*x / CELL_SIZE) as i32;
    let n_index: i32 = (*y / CELL_SIZE) as i32;

    // offset within the cell, from its south-west corner
    let dx: i64 = *x % CELL_SIZE;
    let dy: i64 = *y % CELL_SIZE;

    // the shifts at the four corners of the cell; any of them may be absent
    let s0 = match get_ostn_ref(grid, &e_index, &n_index) {
        Ok(s) => s,
        Err(e) => { return Err(e); },
    };
    let s1 = match get_ostn_ref(grid, &(e_index + 1), &n_index) {
        Ok(s) => s,
        Err(e) => { return Err(e); },
    };
    let s2 = match get_ostn_ref(grid, &e_index, &(n_index + 1)) {
        Ok(s) => s,
        Err(e) => { return Err(e); },
    };
    let s3 = match get_ostn_ref(grid, &(e_index + 1), &(n_index + 1)) {
        Ok(s) => s,
        Err(e) => { return Err(e); },
    };

    Ok(interpolate(dx, dy, s0, s1, s2, s3))
}

/// Every component of a shift is a blend of values that the table stores
/// in 32 bits, each raised by a small offset, so it stays well inside the
/// range of 64 bits.
pub proof fn lemma_shift_magnitude(entries: Entries, e: int, n: int)
    ensures
        grid_shift(entries, e, n) matches Ok(s) ==> {
            &&& -0x1_0000_0000 <= s.0 <= 0x1_0000_0000
            &&& -0x1_0000_0000 <= s.1 <= 0x1_0000_0000
            &&& -0x1_0000_0000 <= s.2 <= 0x1_0000_0000
        },
{
    if grid_shift(entries, e, n) is Ok {
        let c = CELL_SIZE as int;
        let ei = e / c;
        let ni = n / c;
        let c0 = corner_shift(entries, ei, ni)->Ok_0;
        let c1 = corner_shift(entries, ei + 1, ni)->Ok_0;
        let c2 = corner_shift(entries, ei, ni + 1)->Ok_0;
        let c3 = corner_shift(entries, ei + 1, ni + 1)->Ok_0;
        lemma_bilinear_between_corners(e % c, n % c, c0.0, c1.0, c2.0, c3.0);
        lemma_bilinear_between_corners(e % c, n % c, c0.1, c1.1, c2.1, c3.1);
        lemma_bilinear_between_corners(e % c, n % c, c0.2, c1.2, c2.2, c3.2);
    }
}

proof fn lemma_product_fits(w: int, s: int)
    by (nonlinear_arith)
    requires
        0 <= w <= CELL_AREA,
        i64::MIN <= s <= i64::MAX,
    ensures
        -0x1_0000_0000_0000_0000_0000_0000_0000 <= w * s <= 0x1_0000_0000_0000_0000_0000_0000_0000,
{
}

} // verus!
