use mangadex_scraper::grid::{drawable_count, fit_rows, row_breaks, rows_needed};

/// Walks the children as the grid places them: one cell to the right each
/// time, and to the start of the next row after each break.
fn walk(breaks: &[bool]) -> Vec<(usize, usize)> {
    let mut cells = Vec::new();
    let (mut col, mut row) = (0usize, 0usize);
    for &b in breaks {
        cells.push((col, row));
        if b {
            col = 0;
            row += 1;
        } else {
            col += 1;
        }
    }
    cells
}

#[test]
fn rows_needed_rounds_up() {
    assert_eq!(rows_needed(0, 3), 0);
    assert_eq!(rows_needed(1, 3), 1);
    assert_eq!(rows_needed(6, 3), 2);
    assert_eq!(rows_needed(7, 3), 3);
    assert_eq!(rows_needed(5, 1), 5);
    assert_eq!(rows_needed(usize::MAX, 2), usize::MAX / 2 + 1);
}

#[test]
fn rows_needed_is_least_that_holds_all() {
    for count in 0..40usize {
        for cells in 1..7usize {
            let rows = rows_needed(count, cells);
            assert!(count <= rows * cells);
            assert!(rows == 0 || (rows - 1) * cells < count);
        }
    }
}

#[test]
fn fit_rows_lowers_until_not_too_tall() {
    assert_eq!(fit_rows(5, |r: usize| r > 3), 3);
    assert_eq!(fit_rows(5, |_r: usize| false), 5);
    assert_eq!(fit_rows(5, |_r: usize| true), 0);
    assert_eq!(fit_rows(0, |_r: usize| true), 0);
}

#[test]
fn fit_rows_with_heights() {
    // cells 240 high, spacing 20, room for 480: rows r need r * 260 + 20.
    let height_from_rows = |rows: usize| (rows as f64) * (240.0 + 20.0) + 20.0;
    let height = 480.0;
    assert_eq!(fit_rows(3, |r: usize| height_from_rows(r) > height), 1);
    assert_eq!(fit_rows(1, |r: usize| height_from_rows(r) > 600.0), 1);
}

#[test]
fn drawable_count_is_the_smaller() {
    assert_eq!(drawable_count(10, 2, 3), 6);
    assert_eq!(drawable_count(4, 2, 3), 4);
    assert_eq!(drawable_count(4, 0, 3), 0);
    assert_eq!(drawable_count(5, usize::MAX, 2), 5);
    assert_eq!(drawable_count(0, 3, 3), 0);
}

#[test]
fn row_breaks_after_each_full_row() {
    assert_eq!(row_breaks(5, 2), vec![false, true, false, true, false]);
    assert_eq!(row_breaks(3, 1), vec![true, true, true]);
    assert_eq!(row_breaks(0, 4), Vec::<bool>::new());
    assert_eq!(row_breaks(3, 5), vec![false, false, false]);
}

#[test]
fn placement_is_row_major() {
    for cells in 1..6usize {
        let breaks = row_breaks(17, cells);
        let placed = walk(&breaks);
        for (i, &cell) in placed.iter().enumerate() {
            assert_eq!(cell, (i % cells, i / cells));
        }
    }
}

#[test]
fn drawn_cells_are_distinct_and_inside() {
    let (len, cells) = (11usize, 3usize);
    let rows = fit_rows(rows_needed(len, cells), |r: usize| r > 2);
    assert_eq!(rows, 2);
    let drawn = drawable_count(len, rows, cells);
    assert_eq!(drawn, 6);
    let placed = walk(&row_breaks(drawn, cells));
    for i in 0..placed.len() {
        assert!(placed[i].0 < cells && placed[i].1 < rows);
        for j in 0..i {
            assert_ne!(placed[i], placed[j]);
        }
    }
}
