//! The grid model: a rectangular result set, a row/column selection over it,
//! and the sliding window of visible columns.
//!
//! All navigation saturates at the grid edges (no wrapping), and the visible
//! window is re-derived from the selected column by quantized jumps of a
//! fixed page width of [`PAGE`] columns.

use vstd::prelude::*;

verus! {

/// Number of columns shown at once; also how far a window jump moves.
pub const PAGE: usize = 10;

/// The shape of incoming data does not form a rectangle: rejected when a
/// grid is created or replaced, so that no partially-updated state is ever
/// observable.
#[derive(Debug, Clone, Copy, PartialEq, Eq, Structural)]
pub enum DataShapeError {
    /// Rows were supplied although there are no headers at all.
    RowsWithoutHeaders { row_count: usize },
    /// The first offending row has a cell count different from the header count.
    RowLengthMismatch { row_index: usize, header_count: usize, row_len: usize },
}

/// Largest selectable column index (`width`) and row index (`height`);
/// both are `0` when the corresponding dimension is empty.
#[derive(Debug, Clone, Copy, PartialEq, Eq, Structural)]
pub struct SelectableRange {
    pub width: usize,
    pub height: usize,
}

/// The contiguous slice of columns currently rendered. The window may extend
/// past the last real column on narrow grids; a renderer clips when slicing.
#[derive(Debug, Clone, Copy, PartialEq, Eq, Structural)]
pub struct VisibleRange {
    pub begin_column_index: usize,
    pub end_column_index: usize,
}

/// One rectangular result set (table records or column metadata), addressed
/// by a logical name, together with its selection and visible-column window.
#[derive(Debug)]
pub struct TableStruct {
    pub name: String,
    pub headers: Vec<String>,
    pub records: Vec<Vec<String>>,
    pub selectable_range: SelectableRange,
    /// Index of the selected row; `None` exactly when there are no rows.
    pub selected_row_index: Option<usize>,
    pub selected_column_index: usize,
    pub visible_range: VisibleRange,
}

/// Largest valid index of a dimension holding `count` entries; `0` for an
/// empty dimension (mirrors `count.saturating_sub(1)`).
pub open spec fn last_index(count: nat) -> nat {
    if count == 0 {
        0
    } else {
        (count - 1) as nat
    }
}

/// The incoming data forms a rectangle: every row has exactly one cell per
/// header, and rows without any headers are not allowed.
pub open spec fn valid_shape(headers: Vec<String>, records: Vec<Vec<String>>) -> bool {
    &&& records@.len() > 0 ==> headers@.len() > 0
    &&& forall|i: int| 0 <= i < records@.len() ==> #[trigger] records@[i]@.len() == headers@.len()
}

/// The state every freshly created or replaced grid starts from: selection at
/// the top-left cell (no row selected when there are no rows) and the visible
/// window covering the first page of columns.
pub open spec fn fresh_state(name: String, headers: Vec<String>, records: Vec<Vec<String>>) -> TableStruct {
    TableStruct {
        name: name,
        headers: headers,
        records: records,
        selectable_range: SelectableRange {
            width: last_index(headers@.len()) as usize,
            height: last_index(records@.len()) as usize,
        },
        selected_row_index: if records@.len() > 0 {
            Some(0usize)
        } else {
            None
        },
        selected_column_index: 0,
        visible_range: VisibleRange {
            begin_column_index: 0,
            end_column_index: (PAGE - 1) as usize,
        },
    }
}

impl TableStruct {
    /// Number of columns, `W`.
    pub open spec fn width(self) -> nat {
        self.headers@.len()
    }

    /// Number of rows, `H`.
    pub open spec fn height(self) -> nat {
        self.records@.len()
    }

    /// Joint invariant of grid, selection and window, established by the
    /// constructor and preserved by every operation: the data is rectangular,
    /// the cached selectable bounds match the data, the selection is inside
    /// the grid, and the window is a non-empty range starting at a real
    /// column (or at `0` on a grid without columns).
    pub open spec fn well_formed(self) -> bool {
        &&& valid_shape(self.headers, self.records)
        &&& self.selectable_range.width == last_index(self.width())
        &&& self.selectable_range.height == last_index(self.height())
        &&& (self.selected_row_index is Some <==> self.height() > 0)
        &&& (self.selected_row_index matches Some(r) ==> r < self.height())
        &&& (self.width() > 0 ==> self.selected_column_index < self.width())
        &&& (self.width() == 0 ==> self.selected_column_index == 0)
        &&& self.visible_range.begin_column_index <= self.visible_range.end_column_index
        &&& (self.width() == 0 ==> self.visible_range.begin_column_index == 0)
        &&& (self.width() > 0 ==> self.visible_range.begin_column_index < self.width())
    }

    /// Builds a grid over the given data, rejecting non-rectangular input.
    ///
    /// Returns `Ok` exactly when the data is rectangular; the error reports
    /// the first offending row, and rows supplied without headers are
    /// reported as such.
    pub fn new(name: String, headers: Vec<String>, records: Vec<Vec<String>>) -> (result: Result<
        TableStruct,
        DataShapeError,
    >)
        ensures
            result is Ok <==> valid_shape(headers, records),
            result matches Ok(t) ==> t == fresh_state(name, headers, records) && t.well_formed(),
            result matches Err(e) ==> shape_error_reported(headers, records, e),
    {
        if let Err(e) = check_shape(&headers, &records) {
            return Err(e);
        }
        let width = headers.len().saturating_sub(1);
        let height = records.len().saturating_sub(1);
        let selected_row_index = if records.len() > 0 {
            Some(0usize)
        } else {
            None
        };
        Ok(
            TableStruct {
                name,
                headers,
                records,
                selectable_range: SelectableRange { width, height },
                selected_row_index,
                selected_column_index: 0,
                visible_range: VisibleRange { begin_column_index: 0, end_column_index: PAGE - 1 },
            },
        )
    }

    /// Atomically swaps the grid's contents for a new result set, resetting
    /// the selection to the top-left cell and the window to the first page.
    /// Non-rectangular data is rejected and the previous state is then left
    /// untouched: no partial update is ever observable.
    pub fn reset_default_records(
        &mut self,
        table_name: String,
        headers: Vec<String>,
        records: Vec<Vec<String>>,
    ) -> (result: Result<(), DataShapeError>)
        ensures
            result is Ok <==> valid_shape(headers, records),
            result is Ok ==> *final(self) == fresh_state(table_name, headers, records)
                && final(self).well_formed(),
            result matches Err(e) ==> *final(self) == *old(self) && shape_error_reported(
                headers,
                records,
                e,
            ),
    {
        if let Err(e) = check_shape(&headers, &records) {
            return Err(e);
        }
        let width = headers.len().saturating_sub(1);
        let height = records.len().saturating_sub(1);
        self.name = table_name;
        self.headers = headers;
        self.records = records;
        self.selectable_range = SelectableRange { width, height };
        self.selected_row_index = if self.records.len() > 0 {
            Some(0usize)
        } else {
            None
        };
        self.selected_column_index = 0;
        self.visible_range = VisibleRange { begin_column_index: 0, end_column_index: PAGE - 1 };
        Ok(())
    }

    /// True iff this grid currently shows the result set of the given name.
    pub fn is_current_table(&self, selected_table: String) -> (r: bool)
        ensures
            r == (selected_table@ == self.name@),
    {
        selected_table == self.name
    }

    /// True iff the grid has no rows or no columns.
    pub fn is_empty(&self) -> (r: bool)
        ensures
            r == (self.height() == 0 || self.width() == 0),
    {
        self.headers.len() == 0 || self.records.len() == 0
    }

    /// Number of columns, `W`.
    pub fn column_count(&self) -> (r: usize)
        ensures
            r == self.width(),
    {
        self.headers.len()
    }

    /// Number of rows, `H`.
    pub fn row_count(&self) -> (r: usize)
        ensures
            r == self.height(),
    {
        self.records.len()
    }
}

/// The row selection after one upward step: saturates at the top row and
/// stays `None` on a grid without rows.
pub open spec fn row_after_move_up(row: Option<usize>) -> Option<usize> {
    match row {
        None => None,
        Some(r) => if r == 0 {
            Some(0usize)
        } else {
            Some((r - 1) as usize)
        },
    }
}

/// The row selection after one downward step: saturates at the bottom row
/// and stays `None` on a grid without rows.
pub open spec fn row_after_move_down(row: Option<usize>, height: nat) -> Option<usize> {
    match row {
        None => None,
        Some(r) => if r + 1 < height {
            Some((r + 1) as usize)
        } else {
            Some(r)
        },
    }
}

/// The column selection after one leftward step: unchanged on an empty grid,
/// saturating at column `0`.
pub open spec fn column_after_move_left(column: usize, height: nat) -> usize {
    if height == 0 || column == 0 {
        column
    } else {
        (column - 1) as usize
    }
}

/// The column selection after one rightward step: unchanged on an empty
/// grid, saturating at the last column.
pub open spec fn column_after_move_right(column: usize, width: nat, height: nat) -> usize {
    if height == 0 || width == 0 {
        column
    } else if column + 1 < width {
        (column + 1) as usize
    } else {
        column
    }
}

/// The window after a rightward jump: the selected column becomes the
/// rightmost visible one. The window start is clamped at `0` rather than
/// allowed to underflow.
pub open spec fn right_scrolled(column: usize) -> VisibleRange {
    VisibleRange {
        begin_column_index: if column >= PAGE - 1 {
            (column - (PAGE - 1)) as usize
        } else {
            0usize
        },
        end_column_index: column,
    }
}

/// The window after a leftward jump: the selected column becomes the
/// leftmost visible one. The window end saturates at `usize::MAX`.
pub open spec fn left_scrolled(column: usize) -> VisibleRange {
    VisibleRange {
        begin_column_index: column,
        end_column_index: if column + (PAGE - 1) <= usize::MAX {
            (column + (PAGE - 1)) as usize
        } else {
            usize::MAX
        },
    }
}

/// The window re-derived from the selected column: jump right when the
/// selection left the window on the right, jump left when it left on the
/// left, otherwise unchanged.
pub open spec fn recalculated(window: VisibleRange, column: usize) -> VisibleRange {
    if column > window.end_column_index {
        right_scrolled(column)
    } else if column < window.begin_column_index {
        left_scrolled(column)
    } else {
        window
    }
}

impl TableStruct {
    /// Moves the row selection one row up, saturating at the top row; a
    /// no-op on a grid without rows.
    pub fn move_up(&mut self)
        requires
            old(self).well_formed(),
        ensures
            final(self).well_formed(),
            *final(self) == (TableStruct {
                selected_row_index: row_after_move_up(old(self).selected_row_index),
                ..*old(self)
            }),
            old(self).height() == 0 ==> *final(self) == *old(self)
                && final(self).selected_row_index is None,
    {
        if let Some(selected) = self.selected_row_index {
            if selected != 0 {
                self.selected_row_index = Some(selected - 1);
            }
        }
    }

    /// Moves the row selection one row down, saturating at the bottom row; a
    /// no-op on a grid without rows.
    pub fn move_down(&mut self)
        requires
            old(self).well_formed(),
        ensures
            final(self).well_formed(),
            *final(self) == (TableStruct {
                selected_row_index: row_after_move_down(
                    old(self).selected_row_index,
                    old(self).height(),
                ),
                ..*old(self)
            }),
            old(self).height() == 0 ==> *final(self) == *old(self)
                && final(self).selected_row_index is None,
    {
        if let Some(selected) = self.selected_row_index {
            if selected < self.selectable_range.height {
                self.selected_row_index = Some(selected + 1);
            }
        }
    }

    /// Moves the column selection one column left, saturating at column `0`;
    /// a no-op on an empty grid.
    pub fn move_left(&mut self)
        requires
            old(self).well_formed(),
        ensures
            final(self).well_formed(),
            *final(self) == (TableStruct {
                selected_column_index: column_after_move_left(
                    old(self).selected_column_index,
                    old(self).height(),
                ),
                ..*old(self)
            }),
            old(self).width() == 0 || old(self).height() == 0 ==> *final(self) == *old(self),
    {
        if self.records.len() == 0 {
            return ;
        }
        if self.selected_column_index == 0 {
            return ;
        }
        self.selected_column_index = self.selected_column_index - 1;
    }

    /// Moves the column selection one column right, saturating at the last
    /// column; a no-op on an empty grid.
    pub fn move_right(&mut self)
        requires
            old(self).well_formed(),
        ensures
            final(self).well_formed(),
            *final(self) == (TableStruct {
                selected_column_index: column_after_move_right(
                    old(self).selected_column_index,
                    old(self).width(),
                    old(self).height(),
                ),
                ..*old(self)
            }),
            old(self).width() == 0 || old(self).height() == 0 ==> *final(self) == *old(self),
    {
        if self.records.len() == 0 {
            return ;
        }
        if self.selected_column_index >= self.selectable_range.width {
            return ;
        }
        self.selected_column_index = self.selected_column_index + 1;
    }

    /// Jumps the window right so the selected column becomes the rightmost
    /// visible one.
    pub fn scroll_right(&mut self)
        requires
            old(self).well_formed(),
        ensures
            final(self).well_formed(),
            *final(self) == (TableStruct {
                visible_range: right_scrolled(old(self).selected_column_index),
                ..*old(self)
            }),
    {
        self.visible_range.end_column_index = self.selected_column_index;
        self.visible_range.begin_column_index = self.selected_column_index.saturating_sub(
            PAGE - 1,
        );
    }

    /// Jumps the window left so the selected column becomes the leftmost
    /// visible one.
    pub fn scroll_left(&mut self)
        requires
            old(self).well_formed(),
        ensures
            final(self).well_formed(),
            *final(self) == (TableStruct {
                visible_range: left_scrolled(old(self).selected_column_index),
                ..*old(self)
            }),
    {
        self.visible_range.begin_column_index = self.selected_column_index;
        self.visible_range.end_column_index = self.selected_column_index.saturating_add(PAGE - 1);
    }

    /// Re-derives the window from the selected column so that the selection
    /// is visible again: a quantized jump, not a smooth scroll. Running it
    /// twice in a row yields the same window as running it once (see
    /// [`lemma_recalculation_idempotent`]).
    pub fn update_visible_range(&mut self)
        requires
            old(self).well_formed(),
        ensures
            final(self).well_formed(),
            *final(self) == (TableStruct {
                visible_range: recalculated(
                    old(self).visible_range,
                    old(self).selected_column_index,
                ),
                ..*old(self)
            }),
            final(self).visible_range.begin_column_index <= final(self).selected_column_index
                <= final(self).visible_range.end_column_index,
    {
        if self.selected_column_index > self.visible_range.end_column_index {
            self.scroll_right();
        } else if self.selected_column_index < self.visible_range.begin_column_index {
            self.scroll_left();
        }
    }
}

impl TableStruct {
    /// First column index past the visible slice once the window is clipped
    /// to the real columns.
    pub open spec fn visible_end_exclusive(self) -> int {
        if self.visible_range.end_column_index + 1 <= self.width() {
            self.visible_range.end_column_index + 1
        } else {
            self.width() as int
        }
    }

    /// The headers of the visible columns: the window clipped to `[0, W-1]`.
    pub open spec fn visible_header_slice(self) -> Seq<String> {
        self.headers@.subrange(
            self.visible_range.begin_column_index as int,
            self.visible_end_exclusive(),
        )
    }

    /// The visible cells of one row: the window clipped to `[0, W-1]`.
    pub open spec fn visible_row_slice(self, row_index: int) -> Seq<String> {
        self.records@[row_index]@.subrange(
            self.visible_range.begin_column_index as int,
            self.visible_end_exclusive(),
        )
    }

    /// The highlighted cell as the renderer addresses it: the selected row
    /// index and the selected column's offset within the visible slice, or
    /// `None` when no row is selected or the selected column is currently
    /// outside the window.
    pub open spec fn highlighted_spec(self) -> Option<(usize, usize)> {
        match self.selected_row_index {
            None => None,
            Some(r) => if self.visible_range.begin_column_index <= self.selected_column_index
                && self.selected_column_index <= self.visible_range.end_column_index {
                Some(
                    (
                        r,
                        (self.selected_column_index
                            - self.visible_range.begin_column_index) as usize,
                    ),
                )
            } else {
                None
            },
        }
    }

    /// The headers of the columns inside the visible window.
    pub fn visible_headers(&self) -> (r: Vec<String>)
        requires
            self.well_formed(),
        ensures
            r@ == self.visible_header_slice(),
    {
        let begin = self.visible_range.begin_column_index;
        let end_excl = if self.visible_range.end_column_index < self.headers.len() {
            self.visible_range.end_column_index + 1
        } else {
            self.headers.len()
        };
        let mut r: Vec<String> = Vec::new();
        let mut i = begin;
        while i < end_excl
            invariant
                self.well_formed(),
                begin == self.visible_range.begin_column_index,
                end_excl == self.visible_end_exclusive(),
                begin <= i <= end_excl,
                r@ == self.headers@.subrange(begin as int, i as int),
            decreases end_excl - i,
        {
            r.push(self.headers[i].clone());
            assert(r@ =~= self.headers@.subrange(begin as int, i + 1));
            i += 1;
        }
        r
    }

    /// The cells of one row that lie inside the visible window.
    pub fn visible_row(&self, row_index: usize) -> (r: Vec<String>)
        requires
            self.well_formed(),
            row_index < self.height(),
        ensures
            r@ == self.visible_row_slice(row_index as int),
    {
        let begin = self.visible_range.begin_column_index;
        let row = &self.records[row_index];
        let end_excl = if self.visible_range.end_column_index < row.len() {
            self.visible_range.end_column_index + 1
        } else {
            row.len()
        };
        let mut r: Vec<String> = Vec::new();
        let mut i = begin;
        while i < end_excl
            invariant
                self.well_formed(),
                row_index < self.height(),
                row == self.records@[row_index as int],
                begin == self.visible_range.begin_column_index,
                end_excl == self.visible_end_exclusive(),
                begin <= i <= end_excl,
                r@ == row@.subrange(begin as int, i as int),
            decreases end_excl - i,
        {
            r.push(row[i].clone());
            assert(r@ =~= row@.subrange(begin as int, i + 1));
            i += 1;
        }
        r
    }

    /// The highlighted cell for style application: selected row index and
    /// the selected column's offset within the visible slice.
    pub fn highlighted_cell(&self) -> (r: Option<(usize, usize)>)
        requires
            self.well_formed(),
        ensures
            r == self.highlighted_spec(),
    {
        match self.selected_row_index {
            None => None,
            Some(row) => {
                if self.visible_range.begin_column_index <= self.selected_column_index
                    && self.selected_column_index <= self.visible_range.end_column_index {
                    Some((row, self.selected_column_index - self.visible_range.begin_column_index))
                } else {
                    None
                }
            },
        }
    }
}

/// Re-deriving the visible window is idempotent: with no intervening change
/// to the selected column, a second recalculation yields the same window
/// bounds as the first.
pub proof fn lemma_recalculation_idempotent(window: VisibleRange, column: usize)
    ensures
        recalculated(recalculated(window, column), column) == recalculated(window, column),
{
}

/// Replacing a grid's contents yields a state that is a function of the new
/// name, headers and records alone, never of the prior state. Switching away
/// from a result set and back to identical data therefore restores the
/// original first view: the same visible slice and the same highlighted
/// cell, with the selection reset to the top-left cell both times.
pub proof fn lemma_switch_round_trip(
    name: String,
    headers: Vec<String>,
    records: Vec<Vec<String>>,
    first: TableStruct,
    second: TableStruct,
)
    requires
        valid_shape(headers, records),
        first == fresh_state(name, headers, records),
        second == fresh_state(name, headers, records),
    ensures
        first == second,
        first.well_formed(),
        first.visible_header_slice() == second.visible_header_slice(),
        first.highlighted_spec() == second.highlighted_spec(),
        first.selected_column_index == 0,
        first.selected_row_index == (if records@.len() > 0 {
            Some(0usize)
        } else {
            None::<usize>
        }),
{
    assert(headers.len() == headers@.len());
    assert(records.len() == records@.len());
}

/// Rejects data that does not form a rectangle, reporting the first
/// offending row.
fn check_shape(headers: &Vec<String>, records: &Vec<Vec<String>>) -> (result: Result<
    (),
    DataShapeError,
>)
    ensures
        result is Ok <==> valid_shape(*headers, *records),
        result matches Err(e) ==> shape_error_reported(*headers, *records, e),
{
    if records.len() > 0 && headers.len() == 0 {
        return Err(DataShapeError::RowsWithoutHeaders { row_count: records.len() });
    }
    let mut i: usize = 0;
    while i < records.len()
        invariant
            i <= records@.len(),
            records@.len() > 0 ==> headers@.len() > 0,
            forall|j: int| 0 <= j < i ==> #[trigger] records@[j]@.len() == headers@.len(),
        decreases records@.len() - i,
    {
        if records[i].len() != headers.len() {
            return Err(DataShapeError::RowLengthMismatch {
                row_index: i,
                header_count: headers.len(),
                row_len: records[i].len(),
            });
        }
        i += 1;
    }
    Ok(())
}

/// What a rejected creation or replacement reports: the offending data,
/// pinned to the first row whose cell count differs from the header count.
pub open spec fn shape_error_reported(
    headers: Vec<String>,
    records: Vec<Vec<String>>,
    e: DataShapeError,
) -> bool {
    match e {
        DataShapeError::RowsWithoutHeaders { row_count } => {
            &&& headers@.len() == 0
            &&& records@.len() == row_count
            &&& row_count > 0
        },
        DataShapeError::RowLengthMismatch { row_index, header_count, row_len } => {
            &&& header_count == headers@.len()
            &&& headers@.len() > 0
            &&& row_index < records@.len()
            &&& records@[row_index as int]@.len() == row_len
            &&& row_len != header_count
            &&& forall|j: int| 0 <= j < row_index ==> #[trigger] records@[j]@.len()
                == headers@.len()
        },
    }
}

} // verus!
