use vstd::prelude::*;

pub use crate::text::strings;

verus! {

/// The column types a schema can use, independent of the database engine.
#[derive(Clone, Copy, Debug, PartialEq, Eq, Structural)]
pub enum LogicalType {
    String,
    Int64,
    Bool,
    Uuid,
    Timestamp,
}

/// One column of a table.
#[derive(Clone, Debug)]
pub struct Column {
    pub name: String,
    pub col_type: LogicalType,
    pub primary_key: bool,
    pub unique: bool,
    pub nullable: bool,
    pub default: Option<String>,
}

/// An index over some columns of a table.
#[derive(Clone, Debug)]
pub struct Index {
    pub name: String,
    pub columns: Vec<String>,
    pub unique: bool,
}

/// A table: its columns and its indexes.
#[derive(Clone, Debug)]
pub struct Table {
    pub name: String,
    pub columns: Vec<Column>,
    pub indexes: Vec<Index>,
}

/// A whole schema: a list of tables.
#[derive(Clone, Debug)]
pub struct Schema {
    pub tables: Vec<Table>,
}

/// The names of a sequence of columns, in order.
pub open spec fn column_names(cols: Seq<Column>) -> Seq<Seq<char>> {
    cols.map_values(|c: Column| c.name@)
}

/// The names of a sequence of tables, in order.
pub open spec fn table_names(ts: Seq<Table>) -> Seq<Seq<char>> {
    ts.map_values(|t: Table| t.name@)
}

} // verus!
