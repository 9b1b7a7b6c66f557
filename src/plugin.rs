//! What a table data source provides to the runtime.
use vstd::prelude::*;
use crate::column::{Column, ColumnValue};
use crate::context::QueryContext;

verus! {

/// One result row: column names with their values; the names of a row that
/// a plugin gives are distinct (`row_is_map`).
pub type Row = Vec<(String, ColumnValue)>;

/// A row's names are distinct: it is a map from name to value.
pub open spec fn row_is_map(row: Seq<(String, ColumnValue)>) -> bool {
    forall|i: int, j: int| 0 <= i < j < row.len() ==> row[i].0@ != row[j].0@
}

/// A row conforms to a schema: one value per column, in the schema's order,
/// under the column's name and of the column's kind.
pub open spec fn row_conforms(row: Seq<(String, ColumnValue)>, schema: Seq<Column>) -> bool {
    row.len() == schema.len() && forall|k: int| 0 <= k < row.len() ==> row[k].0@ == schema[k].name@
        && row[k].1.spec_kind() == schema[k].kind
}

/// The rows of one `generate` call, in order.
pub type TableRows = Vec<Row>;

/// A table's schema, in declaration order.
pub type TableColumns = Vec<Column>;

/// A table data source. The runtime shares one instance, read-only, among all
/// connections; an implementation that keeps mutable state synchronises it
/// itself. A failure is reported by its message.
pub trait TablePlugin {
    /// The table's name, as registered with the host.
    fn name(&self) -> String;

    /// The rows that answer a query; the names within each row are distinct.
    fn generate(&self, query: &QueryContext) -> Result<TableRows, String>;

    /// The table's schema; it stays the same while the table is registered.
    fn columns(&self) -> Result<TableColumns, String>;

    /// Called when the host shuts the extension down; best effort.
    fn shutdown(&self);
}

} // verus!
