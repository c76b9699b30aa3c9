use viuer::error::ViuError;
use viuer::fit::find_best_fit;

#[test]
fn both_requested_returned_verbatim() {
    // Both dimensions present: used verbatim, whatever the native size.
    assert_eq!(find_best_fit(100, 50, Some(40), Some(20), 80, 24), Ok((40, 20)));
    assert_eq!(find_best_fit(1, 1, Some(7), Some(9), 80, 24), Ok((7, 9)));
}

#[test]
fn width_requested_completes_height_from_aspect() {
    // Square image at 10 cells wide: cells are twice as tall as wide, so the
    // height is 10 / 2 = 5 cells.
    assert_eq!(find_best_fit(100, 100, Some(10), None, 80, 24), Ok((10, 5)));
    // 2:1 landscape image at 10 cells wide renders 2.5 cells tall, rounded up.
    assert_eq!(find_best_fit(200, 100, Some(10), None, 80, 24), Ok((10, 3)));
}

#[test]
fn height_requested_completes_width_from_aspect() {
    // Square image at 5 cells tall is 10 cells wide.
    assert_eq!(find_best_fit(100, 100, None, Some(5), 80, 24), Ok((10, 5)));
}

#[test]
fn height_never_drops_below_one_cell() {
    // A very wide strip still occupies one cell row.
    assert_eq!(find_best_fit(1000, 1, Some(10), None, 80, 24), Ok((10, 1)));
}

#[test]
fn degenerate_native_dimensions_rejected() {
    assert_eq!(find_best_fit(0, 10, None, None, 80, 24), Err(ViuError::InvalidImage));
    assert_eq!(find_best_fit(10, 0, Some(4), Some(2), 80, 24), Err(ViuError::InvalidImage));
    assert_eq!(find_best_fit(0, 0, None, Some(3), 80, 24), Err(ViuError::InvalidImage));
}

#[test]
fn extreme_sizes_clamp_to_representable_cells() {
    // A one-pixel-tall strip as wide as u32 allows still fits one row.
    assert_eq!(find_best_fit(u32::MAX, 1, Some(u32::MAX), None, 80, 24), Ok((u32::MAX, 1)));
    // The completed width saturates instead of overflowing.
    assert_eq!(
        find_best_fit(u32::MAX, 1, None, Some(u32::MAX), 80, 24),
        Ok((u32::MAX, u32::MAX))
    );
}

#[test]
fn unconstrained_small_image_keeps_native_size() {
    // 10x10 pixels fit in an 80x24 terminal: one cell per pixel column,
    // half as many rows.
    assert_eq!(find_best_fit(10, 10, None, None, 80, 24), Ok((10, 5)));
}

#[test]
fn unconstrained_large_image_shrinks_to_extent() {
    // 1000x1000 pixels in an 80x24 terminal: 80 cells wide would need 40
    // rows, too tall, so the height bound decides: 24 rows and 48 columns.
    assert_eq!(find_best_fit(1000, 1000, None, None, 80, 24), Ok((48, 24)));
    // A wide image is bounded by the columns instead.
    assert_eq!(find_best_fit(1000, 100, None, None, 80, 24), Ok((80, 4)));
}
