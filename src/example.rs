//! A table with one column of each kind and one row.
use vstd::prelude::*;
use crate::column::{Column, ColumnType, ColumnValue};
use crate::context::QueryContext;
use crate::plugin::{row_conforms, row_is_map, Row, TableColumns, TablePlugin, TableRows};

verus! {

/// The sample table `example_table`: columns `text`, `integer`, `big_int` and
/// `double`, and a single row `hello_world`, 123, -123456789 and pi.
#[derive(Clone, Copy, Debug, Default)]
pub struct ExampleTable;

/// The sample table's schema: names and kinds, in order.
pub open spec fn example_schema() -> Seq<(Seq<char>, ColumnType)> {
    seq![
        ("text"@, ColumnType::Text),
        ("integer"@, ColumnType::Integer),
        ("big_int"@, ColumnType::BigInt),
        ("double"@, ColumnType::Double),
    ]
}

/// A schema read as names and kinds.
pub open spec fn schema_view(cols: Seq<Column>) -> Seq<(Seq<char>, ColumnType)> {
    cols.map_values(|c: Column| (c.name@, c.kind))
}

/// The sample row: `hello_world`, 123, -123456789 and pi, each under the
/// name of its column, in the schema's order.
pub open spec fn is_example_row(r: Seq<(String, ColumnValue)>) -> bool {
    &&& r.len() == 4
    &&& r[0].0@ == "text"@
    &&& r[0].1 matches ColumnValue::Text(s) && s@ == "hello_world"@
    &&& r[1].0@ == "integer"@
    &&& r[1].1 == ColumnValue::Integer(123)
    &&& r[2].0@ == "big_int"@
    &&& r[2].1 == ColumnValue::BigInt(-123456789i64)
    &&& r[3].0@ == "double"@
    &&& r[3].1 matches ColumnValue::Double(s) && s@ == "3.141592653589793"@
}

impl ExampleTable {
    /// The sample table's schema.
    pub fn schema() -> (r: TableColumns)
        ensures
            schema_view(r@) == example_schema(),
    {
        let mut cols: TableColumns = Vec::new();
        cols.push(Column::text("text"));
        cols.push(Column::integer("integer"));
        cols.push(Column::big_int("big_int"));
        cols.push(Column::double("double"));
        proof {
            assert(schema_view(cols@) =~= example_schema());
        }
        cols
    }

    /// The sample table's single row: `hello_world`, 123, -123456789 and
    /// pi, each under the name of its column.
    pub fn row() -> (r: Row)
        ensures
            is_example_row(r@),
            row_is_map(r@),
            forall|k: int| 0 <= k < 4 ==> r@[k].0@ == example_schema()[k].0 && r@[k].1.spec_kind()
                == example_schema()[k].1,
    {
        let mut row: Row = Vec::new();
        row.push((String::from_str("text"), ColumnValue::text("hello_world")));
        row.push((String::from_str("integer"), ColumnValue::integer(123)));
        row.push((String::from_str("big_int"), ColumnValue::big_int(-123456789)));
        row.push((String::from_str("double"), ColumnValue::double(String::from_str("3.141592653589793"))));
        proof {
            reveal_strlit("text");
            reveal_strlit("integer");
            reveal_strlit("big_int");
            reveal_strlit("double");
            assert(row@[1].0@[0] != row@[2].0@[0]);
            assert(row@[0].0@.len() != row@[1].0@.len());
            assert(row@[0].0@.len() != row@[3].0@.len());
            assert(row@[1].0@.len() != row@[3].0@.len());
            assert(row@[2].0@.len() != row@[3].0@.len());
            assert(row@[0].0@.len() != row@[2].0@.len());
        }
        row
    }
}

/// Every row of the sample table conforms to its schema.
pub proof fn lemma_example_rows_conform(row: Row, schema: TableColumns)
    requires
        schema_view(schema@) == example_schema(),
        is_example_row(row@),
        forall|k: int| 0 <= k < 4 ==> row@[k].0@ == example_schema()[k].0 && row@[k].1.spec_kind()
            == example_schema()[k].1,
    ensures
        row_conforms(row@, schema@),
{
    assert(schema_view(schema@).len() == schema@.len());
    assert(example_schema().len() == 4);
    assert forall|k: int| 0 <= k < row@.len() implies row@[k].0@ == schema@[k].name@
        && row@[k].1.spec_kind() == schema@[k].kind by {
        assert(schema_view(schema@)[k] == (schema@[k].name@, schema@[k].kind));
    }
}

impl TablePlugin for ExampleTable {
    fn name(&self) -> String {
        String::from_str("example_table")
    }

    fn generate(&self, _query: &QueryContext) -> (r: Result<TableRows, String>)
        ensures
            r matches Ok(rows) && rows@.len() == 1 && is_example_row(rows@[0]@) && row_is_map(rows@[0]@)
                && forall|k: int| 0 <= k < 4 ==> rows@[0]@[k].0@ == example_schema()[k].0
                && rows@[0]@[k].1.spec_kind() == example_schema()[k].1,
    {
        let mut rows: TableRows = Vec::new();
        rows.push(ExampleTable::row());
        Ok(rows)
    }

    fn columns(&self) -> (r: Result<TableColumns, String>)
        ensures
            r matches Ok(cols) && schema_view(cols@) == example_schema(),
    {
        Ok(ExampleTable::schema())
    }

    fn shutdown(&self) {
    }
}

} // verus!
