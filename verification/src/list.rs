//! One-dimensional selectable lists: the database list and the table list.
//! Like the grid, their navigation saturates at the edges and never wraps.

use vstd::prelude::*;
use crate::table::last_index;
use crate::table::row_after_move_down;
use crate::table::row_after_move_up;

verus! {

/// The database chooser: the known databases and the selected one.
pub struct DatabaseWdg<'a> {
    pub title: &'a str,
    pub databases: Vec<String>,
    pub current_database: String,
    /// Index of the highlighted entry; always on a real entry.
    pub database_select_state: Option<usize>,
}

impl<'a> DatabaseWdg<'a> {
    /// The list is never empty and the highlight sits on a real entry.
    pub open spec fn well_formed(self) -> bool {
        &&& self.databases@.len() > 0
        &&& self.database_select_state matches Some(i) && i < self.databases@.len()
    }

    /// Starts with the first database highlighted and current.
    pub fn new(databases: Vec<String>) -> (r: Self)
        requires
            databases@.len() > 0,
        ensures
            r.well_formed(),
            r.databases == databases,
            r.database_select_state == Some(0usize),
            r.current_database == databases@[0],
            r.title@ == "DB"@,
    {
        let current_database = databases[0].clone();
        Self {
            title: "DB",
            databases,
            current_database,
            database_select_state: Some(0),
        }
    }

    /// Moves the highlight one entry up, saturating at the first entry.
    pub fn move_up(&mut self)
        requires
            old(self).well_formed(),
        ensures
            final(self).well_formed(),
            *final(self) == (DatabaseWdg {
                database_select_state: row_after_move_up(old(self).database_select_state),
                ..*old(self)
            }),
    {
        if let Some(selected) = self.database_select_state {
            if !self.is_first(selected) {
                self.database_select_state = Some(selected - 1);
            }
        }
    }

    /// Moves the highlight one entry down, saturating at the last entry.
    pub fn move_down(&mut self)
        requires
            old(self).well_formed(),
        ensures
            final(self).well_formed(),
            *final(self) == (DatabaseWdg {
                database_select_state: row_after_move_down(
                    old(self).database_select_state,
                    old(self).databases@.len(),
                ),
                ..*old(self)
            }),
    {
        if let Some(selected) = self.database_select_state {
            if self.is_last(selected) {
                proof {
                    assert(self.databases.len() == self.databases@.len());
                }
                self.database_select_state = Some(selected + 1);
            }
        }
    }

    fn is_first(&self, selected: usize) -> (r: bool)
        ensures
            r == (selected == 0),
    {
        selected == 0
    }

    fn is_last(&self, selected: usize) -> (r: bool)
        ensures
            r == (selected < last_index(self.databases@.len())),
    {
        selected < self.databases.len().saturating_sub(1)
    }

    /// Makes the highlighted database the current one.
    pub fn change_database(&mut self)
        requires
            old(self).well_formed(),
        ensures
            final(self).well_formed(),
            *final(self) == (DatabaseWdg {
                current_database: old(self).databases@[
                    old(self).database_select_state->0 as int
                ],
                ..*old(self)
            }),
    {
        if let Some(selected) = self.database_select_state {
            self.current_database = self.databases[selected].clone();
        }
    }
}

/// The table chooser for the current database.
pub struct TableListWdg<'a> {
    pub title: &'a str,
    pub tables: Vec<String>,
    /// Index of the highlighted entry; always on a real entry.
    pub table_select_state: Option<usize>,
    pub current_table: String,
}

impl<'a> TableListWdg<'a> {
    /// The list is never empty and the highlight sits on a real entry.
    pub open spec fn well_formed(self) -> bool {
        &&& self.tables@.len() > 0
        &&& self.table_select_state matches Some(i) && i < self.tables@.len()
    }

    /// Starts with the first table highlighted and current.
    pub fn new(tables: Vec<String>) -> (r: Self)
        requires
            tables@.len() > 0,
        ensures
            r.well_formed(),
            r.tables == tables,
            r.table_select_state == Some(0usize),
            r.current_table == tables@[0],
            r.title@ == "Tables"@,
    {
        let current_table = tables[0].clone();
        Self {
            title: "Tables",
            tables,
            table_select_state: Some(0),
            current_table,
        }
    }

    /// Moves the highlight one entry up, saturating at the first entry.
    pub fn move_up(&mut self)
        requires
            old(self).well_formed(),
        ensures
            final(self).well_formed(),
            *final(self) == (TableListWdg {
                table_select_state: row_after_move_up(old(self).table_select_state),
                ..*old(self)
            }),
    {
        if let Some(selected) = self.table_select_state {
            if !self.is_first(selected) {
                self.table_select_state = Some(selected - 1);
            }
        }
    }

    /// Moves the highlight one entry down, saturating at the last entry.
    pub fn move_down(&mut self)
        requires
            old(self).well_formed(),
        ensures
            final(self).well_formed(),
            *final(self) == (TableListWdg {
                table_select_state: row_after_move_down(
                    old(self).table_select_state,
                    old(self).tables@.len(),
                ),
                ..*old(self)
            }),
    {
        if let Some(selected) = self.table_select_state {
            if self.is_last(selected) {
                proof {
                    assert(self.tables.len() == self.tables@.len());
                }
                self.table_select_state = Some(selected + 1);
            }
        }
    }

    fn is_first(&self, selected: usize) -> (r: bool)
        ensures
            r == (selected == 0),
    {
        selected == 0
    }

    fn is_last(&self, selected: usize) -> (r: bool)
        ensures
            r == (selected < last_index(self.tables@.len())),
    {
        selected < self.tables.len().saturating_sub(1)
    }

    /// Makes the highlighted table the current one.
    pub fn change_table(&mut self)
        requires
            old(self).well_formed(),
        ensures
            final(self).well_formed(),
            *final(self) == (TableListWdg {
                current_table: old(self).tables@[old(self).table_select_state->0 as int],
                ..*old(self)
            }),
    {
        if let Some(selected) = self.table_select_state {
            self.current_table = self.tables[selected].clone();
        }
    }

    /// Swaps in the table list of a newly chosen database. The highlight is
    /// kept when it still points at a real entry and otherwise clamped to
    /// the last entry, so that it always sits on a real table.
    pub fn change_tables(&mut self, new_tables: Vec<String>)
        requires
            old(self).well_formed(),
            new_tables@.len() > 0,
        ensures
            final(self).well_formed(),
            *final(self) == (TableListWdg {
                tables: new_tables,
                table_select_state: Some(
                    clamped_index(old(self).table_select_state->0, new_tables@.len()),
                ),
                ..*old(self)
            }),
    {
        if let Some(selected) = self.table_select_state {
            if selected >= new_tables.len() {
                self.table_select_state = Some(new_tables.len() - 1);
            }
        }
        self.tables = new_tables;
    }
}

/// `index` when it points below `count`, else the last valid index.
pub open spec fn clamped_index(index: usize, count: nat) -> usize {
    if index < count {
        index
    } else {
        ((count - 1) as nat) as usize
    }
}

} // verus!
