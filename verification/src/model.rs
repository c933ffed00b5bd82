//! Plain data handed in by the database collaborator: already-stringified
//! headers and cell values. The grids in [`crate::table`] are built from
//! these models; fetching and decoding the underlying values is the
//! collaborator's business and never happens here.

use vstd::prelude::*;

verus! {

/// The records of one table: column headers and string-rendered rows.
pub struct TableRecordModel {
    pub headers: Vec<String>,
    pub records: Vec<Vec<String>>,
}

/// The column metadata of one table, in the same rectangular form.
pub struct TableColumnModel {
    pub headers: Vec<String>,
    pub columns: Vec<Vec<String>>,
}

/// Everything fetched for one table: its records and its column metadata.
pub struct TableModel {
    pub name: String,
    pub record: TableRecordModel,
    pub column: TableColumnModel,
}

/// The databases and tables the browser knows about, and the table whose
/// data is currently loaded.
pub struct DatabaseModel {
    pub current_database: String,
    pub databases: Vec<String>,
    pub current_table: TableModel,
    pub tables: Vec<String>,
}

} // verus!
