//! The application mode switch and the two parallel grids — table records
//! and column metadata — with navigation intents dispatched to whichever
//! grid the active tab selects.

use vstd::prelude::*;
use crate::model::TableModel;
use crate::tab::TableMode;
use crate::table::DataShapeError;
use crate::table::TableStruct;
use crate::table::column_after_move_left;
use crate::table::column_after_move_right;
use crate::table::fresh_state;
use crate::table::recalculated;
use crate::table::row_after_move_down;
use crate::table::row_after_move_up;
use crate::table::valid_shape;
use crate::table::shape_error_reported;

verus! {

/// The three top-level input modes of the browser. A flat switch: any mode
/// can be entered from `Normal` and left back to it.
#[derive(Debug, Clone, Copy, PartialEq, Eq, Structural)]
pub enum WidgetMode {
    Normal,
    ChangeDB,
    EditSQL,
}

/// Top-level application state: which input mode the key loop is in.
pub struct App {
    pub widget_mode: WidgetMode,
}

impl App {
    /// Starts in normal (navigation) mode.
    pub fn new() -> (r: Self)
        ensures
            r.widget_mode == WidgetMode::Normal,
    {
        Self { widget_mode: WidgetMode::Normal }
    }
}

/// The records grid and the columns grid of the current table, with the tab
/// mode that decides which of the two receives navigation intents. The two
/// grids are independent instances; nothing is shared between them.
pub struct TableWdg {
    pub table_mode: TableMode,
    pub record_widget: TableStruct,
    pub column_widget: TableStruct,
}

impl TableWdg {
    /// Both grids hold their joint invariant.
    pub open spec fn well_formed(self) -> bool {
        &&& self.record_widget.well_formed()
        &&& self.column_widget.well_formed()
    }

    /// The grid the active tab selects is the one that was moved; the other
    /// grid is untouched, and the mode never changes under navigation.
    pub open spec fn dispatched(self, moved_records: TableStruct, moved_columns: TableStruct) -> TableWdg {
        match self.table_mode {
            TableMode::Records => TableWdg { record_widget: moved_records, ..self },
            TableMode::Columns => TableWdg { column_widget: moved_columns, ..self },
        }
    }

    /// Starts on the records tab.
    pub fn new(record_widget: TableStruct, column_widget: TableStruct) -> (r: Self)
        ensures
            r.table_mode == TableMode::Records,
            r.record_widget == record_widget,
            r.column_widget == column_widget,
    {
        Self { table_mode: TableMode::Records, record_widget, column_widget }
    }

    /// Moves the active grid's row selection one row up.
    pub fn move_up(&mut self)
        requires
            old(self).well_formed(),
        ensures
            final(self).well_formed(),
            *final(self) == old(self).dispatched(
                (TableStruct {
                    selected_row_index: row_after_move_up(
                        old(self).record_widget.selected_row_index,
                    ),
                    ..old(self).record_widget
                }),
                (TableStruct {
                    selected_row_index: row_after_move_up(
                        old(self).column_widget.selected_row_index,
                    ),
                    ..old(self).column_widget
                }),
            ),
    {
        match self.table_mode {
            TableMode::Records => self.record_widget.move_up(),
            TableMode::Columns => self.column_widget.move_up(),
        }
    }

    /// Moves the active grid's row selection one row down.
    pub fn move_down(&mut self)
        requires
            old(self).well_formed(),
        ensures
            final(self).well_formed(),
            *final(self) == old(self).dispatched(
                (TableStruct {
                    selected_row_index: row_after_move_down(
                        old(self).record_widget.selected_row_index,
                        old(self).record_widget.height(),
                    ),
                    ..old(self).record_widget
                }),
                (TableStruct {
                    selected_row_index: row_after_move_down(
                        old(self).column_widget.selected_row_index,
                        old(self).column_widget.height(),
                    ),
                    ..old(self).column_widget
                }),
            ),
    {
        match self.table_mode {
            TableMode::Records => self.record_widget.move_down(),
            TableMode::Columns => self.column_widget.move_down(),
        }
    }

    /// Moves the active grid's column selection one column left.
    pub fn move_left(&mut self)
        requires
            old(self).well_formed(),
        ensures
            final(self).well_formed(),
            *final(self) == old(self).dispatched(
                (TableStruct {
                    selected_column_index: column_after_move_left(
                        old(self).record_widget.selected_column_index,
                        old(self).record_widget.height(),
                    ),
                    ..old(self).record_widget
                }),
                (TableStruct {
                    selected_column_index: column_after_move_left(
                        old(self).column_widget.selected_column_index,
                        old(self).column_widget.height(),
                    ),
                    ..old(self).column_widget
                }),
            ),
    {
        match self.table_mode {
            TableMode::Records => self.record_widget.move_left(),
            TableMode::Columns => self.column_widget.move_left(),
        }
    }

    /// Moves the active grid's column selection one column right.
    pub fn move_right(&mut self)
        requires
            old(self).well_formed(),
        ensures
            final(self).well_formed(),
            *final(self) == old(self).dispatched(
                (TableStruct {
                    selected_column_index: column_after_move_right(
                        old(self).record_widget.selected_column_index,
                        old(self).record_widget.width(),
                        old(self).record_widget.height(),
                    ),
                    ..old(self).record_widget
                }),
                (TableStruct {
                    selected_column_index: column_after_move_right(
                        old(self).column_widget.selected_column_index,
                        old(self).column_widget.width(),
                        old(self).column_widget.height(),
                    ),
                    ..old(self).column_widget
                }),
            ),
    {
        match self.table_mode {
            TableMode::Records => self.record_widget.move_right(),
            TableMode::Columns => self.column_widget.move_right(),
        }
    }

    /// Re-derives both grids' visible windows from their selections; run
    /// once per frame before drawing.
    pub fn update_visible_range(&mut self)
        requires
            old(self).well_formed(),
        ensures
            final(self).well_formed(),
            final(self).table_mode == old(self).table_mode,
            final(self).record_widget == (TableStruct {
                visible_range: recalculated(
                    old(self).record_widget.visible_range,
                    old(self).record_widget.selected_column_index,
                ),
                ..old(self).record_widget
            }),
            final(self).column_widget == (TableStruct {
                visible_range: recalculated(
                    old(self).column_widget.visible_range,
                    old(self).column_widget.selected_column_index,
                ),
                ..old(self).column_widget
            }),
    {
        self.record_widget.update_visible_range();
        self.column_widget.update_visible_range();
    }

    /// Swaps both grids for the data of a newly chosen table, resetting
    /// each to its first view. If either data set is not rectangular,
    /// neither grid is touched: no partial update is ever observable.
    pub fn reset_table_widget(&mut self, selected_table: String, table_model: TableModel) -> (result:
        Result<(), DataShapeError>)
        requires
            old(self).well_formed(),
        ensures
            final(self).well_formed(),
            result is Ok <==> valid_shape(table_model.record.headers, table_model.record.records)
                && valid_shape(table_model.column.headers, table_model.column.columns),
            result is Ok ==> *final(self) == (TableWdg {
                record_widget: fresh_state(
                    selected_table,
                    table_model.record.headers,
                    table_model.record.records,
                ),
                column_widget: fresh_state(
                    selected_table,
                    table_model.column.headers,
                    table_model.column.columns,
                ),
                ..*old(self)
            }),
            result matches Err(e) ==> *final(self) == *old(self) && (if !valid_shape(
                table_model.record.headers,
                table_model.record.records,
            ) {
                shape_error_reported(table_model.record.headers, table_model.record.records, e)
            } else {
                shape_error_reported(table_model.column.headers, table_model.column.columns, e)
            }),
    {
        let record_widget = match TableStruct::new(
            selected_table.clone(),
            table_model.record.headers,
            table_model.record.records,
        ) {
            Ok(w) => w,
            Err(e) => { return Err(e) },
        };
        let column_widget = match TableStruct::new(
            selected_table,
            table_model.column.headers,
            table_model.column.columns,
        ) {
            Ok(w) => w,
            Err(e) => { return Err(e) },
        };
        self.record_widget = record_widget;
        self.column_widget = column_widget;
        Ok(())
    }

    /// True iff the grids currently show the table of the given name.
    pub fn is_current_table(&self, selected_table: String) -> (r: bool)
        ensures
            r == (selected_table@ == self.record_widget.name@),
    {
        self.record_widget.is_current_table(selected_table)
    }
}

} // verus!
