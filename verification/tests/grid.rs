use lonlat_bng::{
    get_ostn_ref, interpolate, ostn02_shifts, shift_from_entry, weigh, ConversionError, ShiftGrid,
    CELL_AREA, CELL_SIZE, MAX_EASTING, MAX_NORTHING,
};

/// Stored values of the OSTN02 grid, by easting and northing index: the
/// cell of the Caister water tower, four cells across the country, and a
/// cell on the edge of the grid, whose south-east corner the grid lacks.
const STORED: [(i32, i32, (i32, i32, i32)); 23] = [
    (99, 0, (6035, 221, 9110)),
    (99, 1, (6036, 245, 9107)),
    (100, 1, (6061, 256, 9100)),
    (423, 103, (10211, 2470, 2777)),
    (424, 103, (10226, 2469, 2746)),
    (423, 104, (10213, 2491, 2778)),
    (424, 104, (10233, 2484, 2747)),
    (239, 132, (7587, 3204, 9244)),
    (240, 132, (7586, 3221, 9224)),
    (239, 133, (7599, 3212, 9239)),
    (240, 133, (7597, 3229, 9218)),
    (607, 265, (14495, 3332, 1189)),
    (608, 265, (14542, 3324, 1174)),
    (607, 266, (14507, 3346, 1191)),
    (608, 266, (14547, 3339, 1177)),
    (651, 313, (16500, 3359, 270)),
    (652, 313, (16538, 3357, 254)),
    (651, 314, (16508, 3387, 258)),
    (652, 314, (16547, 3376, 242)),
    (347, 323, (9183, 6270, 7923)),
    (348, 323, (9207, 6259, 7889)),
    (347, 324, (9184, 6305, 7920)),
    (348, 324, (9208, 6295, 7886)),
];

/// A table that holds the stored values listed above.
fn grid() -> ShiftGrid {
    let mut grid = ShiftGrid::new();
    for (easting_index, northing_index, entry) in STORED {
        grid.insert(easting_index, northing_index, entry);
    }
    grid
}

fn millimetres(metres: f64) -> i64 {
    (metres * 1000.).round() as i64
}

fn metres(shift: (i64, i64, i64)) -> (f64, f64, f64) {
    (shift.0 as f64 / 1000., shift.1 as f64 / 1000., shift.2 as f64 / 1000.)
}

/// The blend of one value per corner, through the easting component.
fn blend(dx: i64, dy: i64, s0: i64, s1: i64, s2: i64, s3: i64) -> i64 {
    interpolate(dx, dy, (s0, 0, 0), (s1, 0, 0), (s2, 0, 0), (s3, 0, 0)).0
}

#[test]
// the grid point south-west of 651307.003, 313255.686
fn mod_test_ostn_hashmap_retrieval() {
    let eastings = 651;
    let northings = 313;
    let expected = (102.775, -78.244, 44.252);
    assert_eq!(expected, metres(get_ostn_ref(&grid(), &eastings, &northings).unwrap()));
}

#[test]
// the grid point south-west of 651307.003, 313255.686
fn utils_test_ostn_hashmap_retrieval() {
    let eastings = 651;
    let northings = 313;
    let expected = (102.775, -78.244, 44.252);
    assert_eq!(expected, metres(get_ostn_ref(&grid(), &eastings, &northings).unwrap()));
}

#[test]
#[should_panic]
fn test_failed_ostn_hashmap_retrieval() {
    // the shift calculation hands an Err on, so an Err is fine
    let eastings = 999;
    let northings = 999;
    let expected = (1., 1., 1.);
    assert_eq!(expected, metres(get_ostn_ref(&grid(), &eastings, &northings).unwrap()));
}

#[test]
fn mod_test_ostn02_shift_incorporation() {
    // these are the input values and corrections of the worked example in the OS transformation guide
    let eastings = millimetres(651307.003);
    let northings = millimetres(313255.686);
    let expected = (102.789, -78.238, 44.244);
    assert_eq!(expected, metres(ostn02_shifts(&grid(), &eastings, &northings).unwrap()));
}

#[test]
fn utils_test_ostn02_shift_incorporation() {
    // these are the input values and corrections of the worked example in the OS transformation guide
    let eastings = millimetres(651307.003);
    let northings = millimetres(313255.686);
    let expected = (102.789, -78.238, 44.244);
    assert_eq!(expected, metres(ostn02_shifts(&grid(), &eastings, &northings).unwrap()));
}

#[test]
fn corner_lookup_in_millimetres() {
    assert_eq!(Ok((102_775, -78_244, 44_252)), get_ostn_ref(&grid(), &651, &313));
    assert_eq!(Ok((102_813, -78_246, 44_236)), get_ostn_ref(&grid(), &652, &313));
    assert_eq!(Ok((102_783, -78_216, 44_240)), get_ostn_ref(&grid(), &651, &314));
    assert_eq!(Ok((102_822, -78_227, 44_224)), get_ostn_ref(&grid(), &652, &314));
}

#[test]
fn lookup_follows_the_table() {
    let grid = grid();
    assert_eq!(Some((16500, 3359, 270)), grid.lookup(651, 313));
    assert_eq!(shift_from_entry(grid.lookup(651, 313)), get_ostn_ref(&grid, &651, &313));
    assert_eq!(shift_from_entry(grid.lookup(99, 0)), get_ostn_ref(&grid, &99, &0));
    assert_eq!(shift_from_entry(grid.lookup(999, 999)), get_ostn_ref(&grid, &999, &999));
}

#[test]
fn an_empty_table_has_no_correction_anywhere() {
    let empty = ShiftGrid::new();
    assert_eq!(Err(ConversionError::MissingGridCorrection), get_ostn_ref(&empty, &651, &313));
    assert_eq!(
        Err(ConversionError::MissingGridCorrection),
        ostn02_shifts(&empty, &651_307_003, &313_255_686)
    );
    assert_eq!(Err(ConversionError::OutOfRange), ostn02_shifts(&empty, &-1, &313_255_686));
}

#[test]
fn absent_grid_points_have_no_correction() {
    assert_eq!(Err(ConversionError::MissingGridCorrection), get_ostn_ref(&grid(), &999, &999));
    assert_eq!(Err(ConversionError::MissingGridCorrection), get_ostn_ref(&grid(), &0, &0));
    assert_eq!(Err(ConversionError::MissingGridCorrection), get_ostn_ref(&grid(), &-1, &313));
    assert_eq!(Err(ConversionError::MissingGridCorrection), get_ostn_ref(&grid(), &651, &4096));
}

#[test]
fn stored_values_are_raised_by_the_smallest_shifts() {
    assert_eq!(Ok((86_275, -81_603, 43_982)), shift_from_entry(Some((0, 0, 0))));
    assert_eq!(Ok((102_775, -78_244, 44_252)), shift_from_entry(Some((16500, 3359, 270))));
    assert_eq!(
        Ok((2_147_569_922, 2_147_402_044, 2_147_527_629)),
        shift_from_entry(Some((i32::MAX, i32::MAX, i32::MAX)))
    );
    assert_eq!(
        Ok((-2_147_397_373, -2_147_565_251, -2_147_439_666)),
        shift_from_entry(Some((i32::MIN, i32::MIN, i32::MIN)))
    );
    assert_eq!(Err(ConversionError::MissingGridCorrection), shift_from_entry(None));
}

#[test]
fn the_south_west_corner_is_not_blended() {
    assert_eq!(
        (7, -8, 9),
        interpolate(0, 0, (7, -8, 9), (-1000, 1, 2), (2000, 3, 4), (30000, 5, 6))
    );
    let at_grid_point = ostn02_shifts(&grid(), &(651 * CELL_SIZE), &(313 * CELL_SIZE));
    assert_eq!(get_ostn_ref(&grid(), &651, &313), at_grid_point);
    assert_eq!(Ok((102_775, -78_244, 44_252)), at_grid_point);
}

#[test]
fn the_weights_of_a_cell_add_up_to_one() {
    let offsets = [0, 1, 250_000, 333_333, 500_000, 666_667, 999_999];
    for dx in offsets {
        for dy in offsets {
            // the weights are the whole cell together
            assert_eq!(CELL_AREA, weigh(dx, dy, 1, 1, 1, 1));
            // so a surface that is level over the cell is level at every offset
            assert_eq!(102_775, blend(dx, dy, 102_775, 102_775, 102_775, 102_775));
            assert_eq!(-78_244, blend(dx, dy, -78_244, -78_244, -78_244, -78_244));
            assert_eq!(i64::MAX, blend(dx, dy, i64::MAX, i64::MAX, i64::MAX, i64::MAX));
            assert_eq!(i64::MIN, blend(dx, dy, i64::MIN, i64::MIN, i64::MIN, i64::MIN));
        }
    }
}

#[test]
fn each_corner_is_weighted_by_the_opposite_rectangle() {
    // a quarter of the way east, three quarters of the way north
    let (dx, dy) = (250_000, 750_000);
    assert_eq!(187_500_000_000, weigh(dx, dy, 1, 0, 0, 0)); // 0.75 * 0.25
    assert_eq!(62_500_000_000, weigh(dx, dy, 0, 1, 0, 0)); // 0.25 * 0.25
    assert_eq!(562_500_000_000, weigh(dx, dy, 0, 0, 1, 0)); // 0.75 * 0.75
    assert_eq!(187_500_000_000, weigh(dx, dy, 0, 0, 0, 1)); // 0.25 * 0.75
    assert_eq!(-187_500_000_000, weigh(dx, dy, -1, 0, 0, 0));
    assert_eq!(188, blend(dx, dy, 1000, 0, 0, 0));
    assert_eq!(63, blend(dx, dy, 0, 1000, 0, 0));
    assert_eq!(563, blend(dx, dy, 0, 0, 1000, 0));
    assert_eq!(188, blend(dx, dy, 0, 0, 0, 1000));
    assert_eq!(2000, blend(dx, dy, 1000, 2000, 2000, 3000));
}

#[test]
fn blends_are_rounded_half_away_from_zero() {
    assert_eq!(1, blend(500_000, 500_000, 0, 0, 0, 2));
    assert_eq!(-1, blend(500_000, 500_000, 0, 0, 0, -2));
    assert_eq!(0, blend(500_000, 500_000, 0, 0, 0, 1));
    assert_eq!(0, blend(500_000, 500_000, 0, 0, 0, -1));
    assert_eq!(1, blend(500_000, 0, 0, 1, 0, 0));
    assert_eq!(-1, blend(0, 500_000, 0, 0, -1, 0));
}

#[test]
fn the_reference_point_blends_its_four_corners() {
    let (dx, dy) = (307_003, 255_686);
    assert_eq!(
        (102_789, -78_238, 44_244),
        interpolate(
            dx,
            dy,
            (102_775, -78_244, 44_252),
            (102_813, -78_246, 44_236),
            (102_783, -78_216, 44_240),
            (102_822, -78_227, 44_224)
        )
    );
}

#[test]
fn the_components_are_blended_apart() {
    assert_eq!(
        (1, -1, 0),
        interpolate(500_000, 500_000, (0, 0, 0), (0, 0, 0), (0, 0, 0), (2, -2, 1))
    );
}

#[test]
fn a_blend_stays_between_its_corners() {
    let offsets = [0, 1, 123_456, 500_000, 999_999];
    for dx in offsets {
        for dy in offsets {
            let r = blend(dx, dy, -5, 17, 3, 11);
            assert!(-5 <= r && r <= 17);
            let r = blend(dx, dy, i64::MIN, i64::MAX, 0, 1);
            assert!(i64::MIN <= r && r <= i64::MAX);
        }
    }
}

#[test]
fn shifts_across_the_country() {
    assert_eq!(Ok((95_476, -75_307, 51_878)), ostn02_shifts(&grid(), &347_712_782, &323_946_139));
    assert_eq!(Ok((96_505, -79_123, 46_731)), ostn02_shifts(&grid(), &423_938_499, &103_694_312));
    assert_eq!(Ok((100_787, -78_260, 45_171)), ostn02_shifts(&grid(), &607_151_283, &265_862_673));
    assert_eq!(Ok((93_871, -78_380, 53_207)), ostn02_shifts(&grid(), &239_701_014, &132_847_736));
}

#[test]
fn a_cell_with_an_absent_corner_has_no_shift() {
    // the grid point itself is in the table, its eastern neighbour is not
    assert_eq!(Ok((92_310, -81_382, 53_092)), get_ostn_ref(&grid(), &99, &0));
    assert_eq!(Err(ConversionError::MissingGridCorrection), get_ostn_ref(&grid(), &100, &0));
    assert_eq!(Err(ConversionError::MissingGridCorrection), ostn02_shifts(&grid(), &99_000_000, &0));
    // far offshore
    assert_eq!(Err(ConversionError::MissingGridCorrection), ostn02_shifts(&grid(), &0, &0));
    assert_eq!(
        Err(ConversionError::MissingGridCorrection),
        ostn02_shifts(&grid(), &MAX_EASTING, &MAX_NORTHING)
    );
}

#[test]
fn shifts_outside_the_envelope_are_out_of_range() {
    assert_eq!(Err(ConversionError::OutOfRange), ostn02_shifts(&grid(), &-1, &313_255_686));
    assert_eq!(Err(ConversionError::OutOfRange), ostn02_shifts(&grid(), &651_307_003, &-1));
    assert_eq!(Err(ConversionError::OutOfRange), ostn02_shifts(&grid(), &(MAX_EASTING + 1), &0));
    assert_eq!(Err(ConversionError::OutOfRange), ostn02_shifts(&grid(), &0, &(MAX_NORTHING + 1)));
    assert_eq!(Err(ConversionError::OutOfRange), ostn02_shifts(&grid(), &i64::MIN, &i64::MAX));
}
