use primer_design::util::{get_row_ranges, seq_i_to_col_row};

#[test]
fn row_ranges_cover_sequence() {
    assert_eq!(get_row_ranges(25, 10), vec![0..10, 10..20, 20..30]);
}

#[test]
fn row_ranges_exact_multiple_adds_a_row() {
    assert_eq!(get_row_ranges(20, 10), vec![0..10, 10..20, 20..30]);
    assert_eq!(get_row_ranges(0, 7), vec![0..7]);
}

#[test]
fn index_to_column_and_row() {
    let rows = get_row_ranges(25, 10);
    assert_eq!(seq_i_to_col_row(0, &rows), (0, 0));
    assert_eq!(seq_i_to_col_row(15, &rows), (5, 1));
    assert_eq!(seq_i_to_col_row(29, &rows), (9, 2));
}

#[test]
fn index_outside_rows_falls_back_to_row_zero() {
    let rows = get_row_ranges(25, 10);
    assert_eq!(seq_i_to_col_row(35, &rows), (35, 0));
    assert_eq!(seq_i_to_col_row(4, &[]), (4, 0));
}
