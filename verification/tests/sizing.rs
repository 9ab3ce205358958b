use termview::size::{determine_size, fit_to_size, scale_dimension, SizeError};

#[test]
fn fit_to_surface_width_constrained() {
    // orig 1600x900 on an 80x25 surface: one row is reserved, so 24 usable
    // rows give a 48 pixel height budget; the height-driven width 85
    // overflows 80 columns, so the width budget wins and the height follows.
    let (w, h) = fit_to_size(1600, 900, 80, 24, None, None);
    assert_eq!((w, h), (80, 45));
}

#[test]
fn fit_to_surface_through_determine_size() {
    let r = determine_size(1600, 900, None, None, None, None, Some((80, 25)));
    assert_eq!(r, Ok((80, 45)));
}

#[test]
fn fit_to_surface_height_constrained() {
    // a tall image on a wide surface fills the height budget exactly
    let (w, h) = fit_to_size(100, 400, 80, 20, None, None);
    // height budget 40, width follows: round(100 * 40 / 400) = 10
    assert_eq!((w, h), (10, 40));
}

#[test]
fn explicit_width_derives_height_round_half_up() {
    // round(900 * 40 / 1600) = round(22.5) = 23: the exact half rounds up
    let r = determine_size(1600, 900, Some(40), None, None, None, None);
    assert_eq!(r, Ok((40, 23)));
}

#[test]
fn explicit_height_derives_width() {
    // h2 = 20, round(1600 * 20 / 900) = round(35.55..) = 36
    let r = determine_size(1600, 900, None, Some(10), None, None, None);
    assert_eq!(r, Ok((36, 20)));
}

#[test]
fn both_explicit_taken_verbatim() {
    // no aspect correction: the caller's choice wins, rows doubled
    let r = determine_size(1600, 900, Some(40), Some(10), None, None, None);
    assert_eq!(r, Ok((40, 20)));
}

#[test]
fn both_explicit_ignores_surface_and_caps() {
    let r = determine_size(10, 10, Some(7), Some(3), Some(1), Some(1), Some((80, 25)));
    assert_eq!(r, Ok((7, 6)));
}

#[test]
fn no_dimensions_and_no_surface_fails() {
    let r = determine_size(1600, 900, None, None, None, None, None);
    assert_eq!(r, Err(SizeError::SurfaceSizeUnavailable));
}

#[test]
fn max_width_below_columns_wins() {
    // cap 40 < 80 columns; height budget 48; height-driven width 85
    // overflows 40, so the capped width wins: round(900 * 40 / 1600) = 23
    let (w, h) = fit_to_size(1600, 900, 80, 24, Some(40), None);
    assert_eq!((w, h), (40, 23));
}

#[test]
fn max_width_above_columns_is_ignored() {
    let with_cap = fit_to_size(1600, 900, 80, 24, Some(200), None);
    let without = fit_to_size(1600, 900, 80, 24, None, None);
    assert_eq!(with_cap, without);
}

#[test]
fn max_height_below_rows_wins() {
    // cap 10 rows < 24 usable rows: height budget 20, width follows
    let (w, h) = fit_to_size(1600, 900, 80, 24, None, Some(10));
    assert_eq!((w, h), (36, 20));
}

#[test]
fn max_height_above_rows_is_ignored() {
    let with_cap = fit_to_size(1600, 900, 80, 24, None, Some(100));
    let without = fit_to_size(1600, 900, 80, 24, None, None);
    assert_eq!(with_cap, without);
}

#[test]
fn fit_never_exceeds_budget_and_fills_one_axis() {
    let cases = [
        (1600u32, 900u32, 80u32, 24u32),
        (900, 1600, 80, 24),
        (1, 1000, 80, 24),
        (1000, 1, 80, 24),
        (333, 77, 13, 7),
    ];
    for (ow, oh, cols, rows) in cases {
        let (w, h) = fit_to_size(ow, oh, cols, rows, None, None);
        assert!(w <= cols);
        assert!(h <= 2 * rows);
        assert!(w == cols || h == 2 * rows);
    }
}

#[test]
fn scale_dimension_rounds_half_up_exactly() {
    // 900 * 40 / 1600 = 22.5 rounds up
    assert_eq!(scale_dimension(40, 900, 1600), 23);
    // 1600 * 48 / 900 = 85.33.. rounds down
    assert_eq!(scale_dimension(48, 1600, 900), 85);
    // an exact integer ratio stays exact
    assert_eq!(scale_dimension(10, 300, 100), 30);
    // scaling by a one ratio is the identity
    assert_eq!(scale_dimension(77, 500, 500), 77);
}

#[test]
fn scale_dimension_is_deterministic() {
    let first = scale_dimension(48, 1600, 900);
    let second = scale_dimension(48, 1600, 900);
    assert_eq!(first, second);
}
