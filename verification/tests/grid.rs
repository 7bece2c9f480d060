use bottles_next::grid::{GridMetrics, TILE_CONTENT_WIDTH};

const WIDTHS: [usize; 12] = [0, 1, 99, 100, 101, 259, 260, 536, 800, 1599, 1600, 100_000];
const MIN_WIDTHS: [usize; 5] = [1, 7, 100, 260, 276];
const SPACINGS: [u16; 5] = [0, 1, 8, 16, u16::MAX];

#[test]
fn degenerate_container_has_one_empty_column() {
    let metrics = GridMetrics::new(0, 260, 8);
    assert_eq!(metrics.cols, 1);
    assert_eq!(metrics.item_width, 0);
    assert_eq!(metrics.column_spacing, 8);
}

#[test]
fn exact_fit_gives_two_columns_of_minimum_width() {
    let metrics = GridMetrics::new(536, 260, 16);
    assert_eq!(metrics, GridMetrics { cols: 2, item_width: 260, column_spacing: 16 });
}

#[test]
fn one_unit_short_of_two_columns_gives_one() {
    let metrics = GridMetrics::new(535, 260, 16);
    assert_eq!(metrics, GridMetrics { cols: 1, item_width: 535, column_spacing: 16 });
}

#[test]
fn wide_container_stretches_five_columns() {
    let metrics = GridMetrics::new(1600, 276, 8);
    assert_eq!(metrics, GridMetrics { cols: 5, item_width: 313, column_spacing: 8 });
}

#[test]
fn container_narrower_than_a_tile_gives_the_tile_all_of_it() {
    let metrics = GridMetrics::new(100, 260, 8);
    assert_eq!(metrics, GridMetrics { cols: 1, item_width: 100, column_spacing: 8 });
}

#[test]
fn container_of_exactly_one_tile() {
    let metrics = GridMetrics::new(260, 260, 8);
    assert_eq!(metrics, GridMetrics { cols: 1, item_width: 260, column_spacing: 8 });
}

#[test]
fn no_spacing_divides_the_width_evenly() {
    let metrics = GridMetrics::new(1000, 100, 0);
    assert_eq!(metrics, GridMetrics { cols: 10, item_width: 100, column_spacing: 0 });
    let metrics = GridMetrics::new(1099, 100, 0);
    assert_eq!(metrics, GridMetrics { cols: 10, item_width: 109, column_spacing: 0 });
}

#[test]
fn spacing_is_echoed_back() {
    for spacing in SPACINGS {
        assert_eq!(GridMetrics::new(800, 260, spacing).column_spacing, spacing);
    }
}

#[test]
fn widest_container_and_narrowest_tile() {
    let metrics = GridMetrics::new(usize::MAX, 1, 0);
    assert_eq!(metrics, GridMetrics { cols: usize::MAX, item_width: 1, column_spacing: 0 });
}

#[test]
fn step_beyond_the_machine_word_leaves_one_column() {
    let metrics = GridMetrics::new(usize::MAX, usize::MAX, u16::MAX);
    assert_eq!(
        metrics,
        GridMetrics { cols: 1, item_width: usize::MAX, column_spacing: u16::MAX }
    );
    let metrics = GridMetrics::new(usize::MAX, usize::MAX - 3, 8);
    assert_eq!(metrics, GridMetrics { cols: 1, item_width: usize::MAX, column_spacing: 8 });
}

#[test]
fn there_is_always_a_column() {
    for width in WIDTHS {
        for min_width in MIN_WIDTHS {
            for spacing in SPACINGS {
                assert!(GridMetrics::new(width, min_width, spacing).cols >= 1);
            }
        }
    }
}

#[test]
fn tiles_and_gaps_stay_within_the_container() {
    for width in WIDTHS {
        for min_width in MIN_WIDTHS {
            for spacing in SPACINGS {
                let metrics = GridMetrics::new(width, min_width, spacing);
                let occupied = metrics.cols * metrics.item_width
                    + (metrics.cols - 1) * metrics.column_spacing as usize;
                assert!(occupied <= width);
                assert!(width - occupied < metrics.cols);
            }
        }
    }
}

#[test]
fn widening_never_loses_a_column() {
    for min_width in MIN_WIDTHS {
        for spacing in SPACINGS {
            let mut columns = 1;
            for width in 0..2000 {
                let metrics = GridMetrics::new(width, min_width, spacing);
                assert!(metrics.cols >= columns);
                columns = metrics.cols;
            }
        }
    }
}

#[test]
fn column_count_is_the_largest_that_keeps_the_minimum_width() {
    for width in WIDTHS {
        for min_width in MIN_WIDTHS {
            for spacing in SPACINGS {
                if width < min_width {
                    continue;
                }
                let metrics = GridMetrics::new(width, min_width, spacing);
                let gap = spacing as usize;
                assert!(metrics.item_width >= min_width);
                assert!(metrics.cols * min_width + (metrics.cols - 1) * gap <= width);
                assert!((metrics.cols + 1) * min_width + metrics.cols * gap > width);
            }
        }
    }
}

#[test]
fn same_inputs_same_metrics() {
    for width in WIDTHS {
        for min_width in MIN_WIDTHS {
            for spacing in SPACINGS {
                assert_eq!(
                    GridMetrics::new(width, min_width, spacing),
                    GridMetrics::new(width, min_width, spacing)
                );
            }
        }
    }
}

#[test]
fn tiles_are_padded_by_the_theme_spacing() {
    assert_eq!(TILE_CONTENT_WIDTH, 260);
    assert_eq!(GridMetrics::for_tiles(1600, 8), GridMetrics::new(1600, 276, 8));
    assert_eq!(
        GridMetrics::for_tiles(1600, 8),
        GridMetrics { cols: 5, item_width: 313, column_spacing: 8 }
    );
    assert_eq!(GridMetrics::for_tiles(800, 16), GridMetrics::new(800, 292, 16));
    assert_eq!(
        GridMetrics::for_tiles(800, 16),
        GridMetrics { cols: 2, item_width: 392, column_spacing: 16 }
    );
    assert_eq!(
        GridMetrics::for_tiles(0, u16::MAX),
        GridMetrics { cols: 1, item_width: 0, column_spacing: u16::MAX }
    );
}

#[test]
fn seven_tiles_in_three_columns_wrap_after_every_third() {
    let metrics = GridMetrics::new(3 * 100 + 2 * 10, 100, 10);
    assert_eq!(metrics.cols, 3);
    assert_eq!(metrics.rows(7), vec![vec![0, 1, 2], vec![3, 4, 5], vec![6]]);
}

#[test]
fn full_last_row_is_not_followed_by_an_empty_one() {
    let metrics = GridMetrics::new(320, 100, 10);
    assert_eq!(metrics.rows(6), vec![vec![0, 1, 2], vec![3, 4, 5]]);
    assert_eq!(metrics.rows(3), vec![vec![0, 1, 2]]);
}

#[test]
fn no_tiles_no_rows() {
    let metrics = GridMetrics::new(320, 100, 10);
    assert_eq!(metrics.rows(0), Vec::<Vec<usize>>::new());
}

#[test]
fn single_column_puts_every_tile_on_its_own_row() {
    let metrics = GridMetrics::new(0, 260, 8);
    assert_eq!(metrics.rows(3), vec![vec![0], vec![1], vec![2]]);
}

#[test]
fn tile_stands_at_its_quotient_and_remainder() {
    for cols in 1..6usize {
        let metrics = GridMetrics { cols, item_width: 10, column_spacing: 0 };
        for count in 0..20usize {
            let rows = metrics.rows(count);
            assert_eq!(rows.len(), (count + cols - 1) / cols);
            for index in 0..count {
                assert_eq!(rows[index / cols][index % cols], index);
            }
            let placed: usize = rows.iter().map(|row| row.len()).sum();
            assert_eq!(placed, count);
        }
    }
}
