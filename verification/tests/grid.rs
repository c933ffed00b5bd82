use dbgrid::table::DataShapeError;
use dbgrid::table::TableStruct;
use dbgrid::table::PAGE;

fn s(x: &str) -> String {
    x.to_string()
}

fn row(cells: &[&str]) -> Vec<String> {
    cells.iter().map(|c| s(c)).collect()
}

/// `n` headers named c0, c1, ... and one row of matching values.
fn wide_grid(n: usize) -> TableStruct {
    let headers: Vec<String> = (0..n).map(|i| format!("c{}", i)).collect();
    let values: Vec<String> = (0..n).map(|i| format!("v{}", i)).collect();
    TableStruct::new(s("wide"), headers, vec![values]).unwrap()
}

#[test]
fn create_starts_at_top_left() {
    let g = TableStruct::new(
        s("people"),
        row(&["id", "name"]),
        vec![row(&["1", "ada"]), row(&["2", "bob"])],
    )
    .unwrap();
    assert_eq!(g.name, s("people"));
    assert_eq!(g.selected_row_index, Some(0));
    assert_eq!(g.selected_column_index, 0);
    assert_eq!(g.visible_range.begin_column_index, 0);
    assert_eq!(g.visible_range.end_column_index, PAGE - 1);
    assert_eq!(g.selectable_range.width, 1);
    assert_eq!(g.selectable_range.height, 1);
    assert!(!g.is_empty());
    assert_eq!(g.column_count(), 2);
    assert_eq!(g.row_count(), 2);
}

#[test]
fn create_empty_grid() {
    let g = TableStruct::new(s("empty"), vec![], vec![]).unwrap();
    assert_eq!(g.selected_row_index, None);
    assert_eq!(g.selected_column_index, 0);
    assert!(g.is_empty());
    assert_eq!(g.column_count(), 0);
    assert_eq!(g.row_count(), 0);
}

#[test]
fn create_headers_but_no_rows() {
    let g = TableStruct::new(s("hollow"), row(&["a", "b", "c"]), vec![]).unwrap();
    assert_eq!(g.selected_row_index, None);
    assert!(g.is_empty());
    assert_eq!(g.column_count(), 3);
}

#[test]
fn short_row_is_a_data_shape_error() {
    // A row shorter than the headers must be rejected, not silently truncated.
    let result = TableStruct::new(s("bad"), row(&["a", "b"]), vec![row(&["1"])]);
    assert_eq!(
        result.unwrap_err(),
        DataShapeError::RowLengthMismatch { row_index: 0, header_count: 2, row_len: 1 }
    );
}

#[test]
fn first_offending_row_is_reported() {
    let rows = vec![row(&["1", "2"]), row(&["3", "4", "5"]), row(&["6"])];
    let result = TableStruct::new(s("bad"), row(&["a", "b"]), rows);
    assert_eq!(
        result.unwrap_err(),
        DataShapeError::RowLengthMismatch { row_index: 1, header_count: 2, row_len: 3 }
    );
}

#[test]
fn rows_without_headers_are_rejected() {
    let result = TableStruct::new(s("bad"), vec![], vec![vec![], vec![]]);
    assert_eq!(result.unwrap_err(), DataShapeError::RowsWithoutHeaders { row_count: 2 });
}

#[test]
fn vertical_moves_are_noops_on_empty_grid() {
    // With no rows the selection stays "no row selected".
    let mut g = TableStruct::new(s("hollow"), row(&["a", "b"]), vec![]).unwrap();
    g.move_up();
    assert_eq!(g.selected_row_index, None);
    g.move_down();
    assert_eq!(g.selected_row_index, None);
}

#[test]
fn horizontal_moves_are_noops_without_columns() {
    let mut g = TableStruct::new(s("empty"), vec![], vec![]).unwrap();
    g.move_left();
    assert_eq!(g.selected_column_index, 0);
    g.move_right();
    assert_eq!(g.selected_column_index, 0);
}

#[test]
fn vertical_moves_saturate() {
    let mut g = TableStruct::new(
        s("t"),
        row(&["a"]),
        vec![row(&["1"]), row(&["2"]), row(&["3"])],
    )
    .unwrap();
    g.move_up();
    assert_eq!(g.selected_row_index, Some(0));
    g.move_down();
    g.move_down();
    assert_eq!(g.selected_row_index, Some(2));
    g.move_down();
    assert_eq!(g.selected_row_index, Some(2));
    g.move_up();
    assert_eq!(g.selected_row_index, Some(1));
}

#[test]
fn horizontal_moves_saturate() {
    let mut g = TableStruct::new(s("t"), row(&["a", "b"]), vec![row(&["1", "2"])]).unwrap();
    g.move_left();
    assert_eq!(g.selected_column_index, 0);
    g.move_right();
    assert_eq!(g.selected_column_index, 1);
    g.move_right();
    assert_eq!(g.selected_column_index, 1);
    g.move_left();
    assert_eq!(g.selected_column_index, 0);
}

#[test]
fn selection_stays_in_bounds() {
    let mut g = TableStruct::new(
        s("t"),
        row(&["a", "b", "c"]),
        vec![row(&["1", "2", "3"]), row(&["4", "5", "6"])],
    )
    .unwrap();
    for _ in 0..10 {
        g.move_right();
        g.move_down();
    }
    assert_eq!(g.selected_column_index, 2);
    assert_eq!(g.selected_row_index, Some(1));
    for _ in 0..10 {
        g.move_left();
        g.move_up();
    }
    assert_eq!(g.selected_column_index, 0);
    assert_eq!(g.selected_row_index, Some(0));
}

#[test]
fn window_follows_selection_by_page_jumps() {
    // W = 25: the window jumps so that the column crossing the right edge
    // becomes the rightmost visible one, and symmetrically on the left.
    let mut g = wide_grid(25);
    for _ in 0..10 {
        g.move_right();
        g.update_visible_range();
    }
    assert_eq!(g.selected_column_index, 10);
    assert_eq!(g.visible_range.begin_column_index, 1);
    assert_eq!(g.visible_range.end_column_index, 10);
    for _ in 0..9 {
        g.move_right();
        g.update_visible_range();
    }
    assert_eq!(g.selected_column_index, 19);
    assert_eq!(g.visible_range.begin_column_index, 10);
    assert_eq!(g.visible_range.end_column_index, 19);
    for _ in 0..10 {
        g.move_left();
        g.update_visible_range();
    }
    assert_eq!(g.selected_column_index, 9);
    assert_eq!(g.visible_range.begin_column_index, 9);
    assert_eq!(g.visible_range.end_column_index, 18);
}

#[test]
fn eleven_columns_first_jump() {
    // headers "a".."j","k": ten moves right land on the last column and the
    // window slides by one page step to [1, 10].
    let headers = row(&["a", "b", "c", "d", "e", "f", "g", "h", "i", "j", "k"]);
    let values = row(&["0", "1", "2", "3", "4", "5", "6", "7", "8", "9", "10"]);
    let mut g = TableStruct::new(s("t"), headers, vec![values]).unwrap();
    assert_eq!(g.visible_range.begin_column_index, 0);
    assert_eq!(g.visible_range.end_column_index, 9);
    for _ in 0..10 {
        g.move_right();
    }
    assert_eq!(g.selected_column_index, 10);
    g.update_visible_range();
    assert_eq!(g.visible_range.begin_column_index, 1);
    assert_eq!(g.visible_range.end_column_index, 10);
}

#[test]
fn recalculation_is_idempotent() {
    let mut g = wide_grid(25);
    for _ in 0..15 {
        g.move_right();
    }
    g.update_visible_range();
    let first = (g.visible_range.begin_column_index, g.visible_range.end_column_index);
    g.update_visible_range();
    let second = (g.visible_range.begin_column_index, g.visible_range.end_column_index);
    assert_eq!(first, (6, 15));
    assert_eq!(first, second);
}

#[test]
fn replace_resets_selection_and_window() {
    let mut g = wide_grid(25);
    for _ in 0..19 {
        g.move_right();
        g.update_visible_range();
    }
    g.move_down();
    assert_eq!(g.selected_column_index, 19);
    g.reset_default_records(s("narrow"), row(&["x", "y", "z"]), vec![row(&["1", "2", "3"])])
        .unwrap();
    assert_eq!(g.name, s("narrow"));
    assert_eq!(g.selected_column_index, 0);
    assert_eq!(g.selected_row_index, Some(0));
    assert_eq!(g.visible_range.begin_column_index, 0);
    assert_eq!(g.visible_range.end_column_index, 9);
    assert_eq!(g.selectable_range.width, 2);
    assert_eq!(g.selectable_range.height, 0);
}

#[test]
fn failed_replace_leaves_state_untouched() {
    let mut g = TableStruct::new(s("t"), row(&["a", "b"]), vec![row(&["1", "2"])]).unwrap();
    g.move_right();
    let result = g.reset_default_records(s("bad"), row(&["x"]), vec![row(&["1", "2"])]);
    assert_eq!(
        result.unwrap_err(),
        DataShapeError::RowLengthMismatch { row_index: 0, header_count: 1, row_len: 2 }
    );
    assert_eq!(g.name, s("t"));
    assert_eq!(g.headers, row(&["a", "b"]));
    assert_eq!(g.records, vec![row(&["1", "2"])]);
    assert_eq!(g.selected_column_index, 1);
}

#[test]
fn switching_back_restores_the_first_view() {
    // Round trip: switching to another result set and back to identical
    // data yields the same visible slice as the original first view.
    let name = s("orders");
    let headers = row(&["id", "item", "qty"]);
    let rows = vec![row(&["1", "pen", "3"]), row(&["2", "ink", "1"])];
    let mut g = TableStruct::new(name.clone(), headers.clone(), rows.clone()).unwrap();
    let first_headers = g.visible_headers();
    let first_row = g.visible_row(0);
    let first_highlight = g.highlighted_cell();

    g.reset_default_records(s("other"), row(&["x"]), vec![row(&["9"])]).unwrap();
    g.move_down();
    g.reset_default_records(name, headers, rows).unwrap();

    assert_eq!(g.visible_headers(), first_headers);
    assert_eq!(g.visible_row(0), first_row);
    assert_eq!(g.highlighted_cell(), first_highlight);
    assert_eq!(g.selected_column_index, 0);
    assert_eq!(g.selected_row_index, Some(0));
}

#[test]
fn visible_slice_is_clipped_to_real_columns() {
    // W < PAGE: the window state extends past the last column but the
    // rendered slice stops at it.
    let g = TableStruct::new(s("t"), row(&["a", "b"]), vec![row(&["1", "2"])]).unwrap();
    assert_eq!(g.visible_range.end_column_index, 9);
    assert_eq!(g.visible_headers(), row(&["a", "b"]));
    assert_eq!(g.visible_row(0), row(&["1", "2"]));
}

#[test]
fn visible_slice_follows_the_window() {
    let mut g = wide_grid(25);
    for _ in 0..12 {
        g.move_right();
        g.update_visible_range();
    }
    assert_eq!(g.selected_column_index, 12);
    assert_eq!(g.visible_range.begin_column_index, 3);
    assert_eq!(g.visible_range.end_column_index, 12);
    let vh = g.visible_headers();
    assert_eq!(vh.len(), 10);
    assert_eq!(vh[0], s("c3"));
    assert_eq!(vh[9], s("c12"));
    let vr = g.visible_row(0);
    assert_eq!(vr[0], s("v3"));
    assert_eq!(vr[9], s("v12"));
}

#[test]
fn highlighted_cell_is_window_relative() {
    let mut g = wide_grid(25);
    assert_eq!(g.highlighted_cell(), Some((0, 0)));
    for _ in 0..12 {
        g.move_right();
    }
    // Selection moved outside the window and the window was not yet
    // recalculated: nothing is highlighted.
    assert_eq!(g.highlighted_cell(), None);
    g.update_visible_range();
    assert_eq!(g.highlighted_cell(), Some((0, 9)));
}

#[test]
fn highlighted_cell_is_none_without_rows() {
    let g = TableStruct::new(s("hollow"), row(&["a"]), vec![]).unwrap();
    assert_eq!(g.highlighted_cell(), None);
}

#[test]
fn direct_right_scroll_clamps_at_zero() {
    // A rightward jump from a column below one page width clamps the window
    // start at 0 instead of underflowing.
    let mut g = wide_grid(25);
    for _ in 0..5 {
        g.move_right();
    }
    g.scroll_right();
    assert_eq!(g.visible_range.begin_column_index, 0);
    assert_eq!(g.visible_range.end_column_index, 5);
}

#[test]
fn direct_left_scroll_opens_a_full_page() {
    let mut g = wide_grid(25);
    for _ in 0..7 {
        g.move_right();
    }
    g.scroll_left();
    assert_eq!(g.visible_range.begin_column_index, 7);
    assert_eq!(g.visible_range.end_column_index, 16);
}

#[test]
fn grid_knows_its_table() {
    let g = TableStruct::new(s("people"), row(&["id"]), vec![row(&["1"])]).unwrap();
    assert!(g.is_current_table(s("people")));
    assert!(!g.is_current_table(s("orders")));
}
