//! The fully materialized result of a non-streaming query or command:
//! immutable rows, column metadata that survives even a zero-row result, and
//! bounds-checked, canonically decoded access to every value.

use vstd::prelude::*;

use crate::value::{decode, decode_spec, decoded_eq, WireCell};

verus! {

/// One column of a result set: its name and the server-side type identifier.
/// The ordinal position is the column's index in its row.
#[derive(Clone, Debug)]
pub struct PgColumn {
    pub name: String,
    pub type_oid: u32,
}

/// One row: an ordered sequence of wire values, aligned by position with the
/// column list it was produced under.
#[derive(Clone, Debug)]
pub struct PgRow {
    pub columns: Vec<PgColumn>,
    pub cells: Vec<WireCell>,
}

impl PgRow {
    pub open spec fn wf(self) -> bool {
        forall|i: int| 0 <= i < self.cells@.len() ==> (#[trigger] self.cells@[i]).wf()
    }
}

/// The names of a column list, in order.
pub open spec fn spec_column_names(cols: Seq<PgColumn>) -> Seq<Seq<char>> {
    cols.map_values(|c: PgColumn| c.name@)
}

/// The type identifiers of a column list, in order.
pub open spec fn spec_column_oids(cols: Seq<PgColumn>) -> Seq<u32> {
    cols.map_values(|c: PgColumn| c.type_oid)
}

/// The canonical text of the value at `col` of a row, or `None` when the
/// value is a logical null or `col` is out of range.
pub open spec fn spec_row_value(row: PgRow, col: int) -> Option<Seq<char>> {
    if 0 <= col < row.cells@.len() {
        decode_spec(row.cells@[col])
    } else {
        None
    }
}

/// Extracts the value at `col` of one row in canonical text form. Used by
/// both the eager result and the streaming cursor.
pub fn get_value(row: &PgRow, col: usize) -> (r: Option<String>)
    requires
        row.wf(),
    ensures
        decoded_eq(r, spec_row_value(*row, col as int)),
{
    if col < row.cells.len() {
        decode(&row.cells[col])
    } else {
        None
    }
}

/// An immutable, fully materialized query or command result.
pub struct PostgreSQLResult {
    pub rows: Vec<PgRow>,
    pub field_names: Vec<String>,
    pub field_type_oids: Vec<u32>,
    pub affected_rows: u64,
}

impl PostgreSQLResult {
    pub open spec fn wf(self) -> bool {
        forall|i: int| 0 <= i < self.rows@.len() ==> (#[trigger] self.rows@[i]).wf()
    }

    /// The field names as spec-level text.
    pub open spec fn spec_field_names(self) -> Seq<Seq<char>> {
        self.field_names@.map_values(|s: String| s@)
    }

    /// The canonical text at (`row`, `col`), or `None` when the value is a
    /// logical null or either index is out of range.
    pub open spec fn spec_value_at(self, row: int, col: int) -> Option<Seq<char>> {
        if 0 <= row < self.rows@.len() {
            spec_row_value(self.rows@[row], col)
        } else {
            None
        }
    }

    /// Builds a result from fetched rows alone; column metadata is taken
    /// from the first row, so a zero-row input keeps no metadata. The
    /// affected count of a data-returning statement is its row count.
    pub fn from_rows(rows: Vec<PgRow>) -> (r: Self)
        requires
            forall|i: int| 0 <= i < rows@.len() ==> (#[trigger] rows@[i]).wf(),
        ensures
            r.wf(),
            r.rows@ == rows@,
            r.affected_rows == rows@.len(),
            r.spec_field_names() == if rows@.len() > 0 {
                spec_column_names(rows@[0].columns@)
            } else {
                Seq::<Seq<char>>::empty()
            },
            r.field_type_oids@ == if rows@.len() > 0 {
                spec_column_oids(rows@[0].columns@)
            } else {
                Seq::<u32>::empty()
            },
    {
        let mut field_names: Vec<String> = Vec::new();
        let mut field_type_oids: Vec<u32> = Vec::new();
        if rows.len() > 0 {
            let ncols = rows[0].columns.len();
            let mut i: usize = 0;
            while i < ncols
                invariant
                    i <= ncols,
                    rows@.len() > 0,
                    ncols == rows@[0].columns@.len(),
                    field_names@.len() == i,
                    field_type_oids@.len() == i,
                    forall|j: int|
                        0 <= j < i ==> (#[trigger] field_names@[j])@ == rows@[0].columns@[j].name@,
                    forall|j: int|
                        0 <= j < i ==> #[trigger] field_type_oids@[j] == rows@[0].columns@[j].type_oid,
                decreases ncols - i,
            {
                let col = &rows[0].columns[i];
                field_names.push(col.name.clone());
                field_type_oids.push(col.type_oid);
                i = i + 1;
            }
        }
        let affected = rows.len() as u64;
        let r = PostgreSQLResult { rows, field_names, field_type_oids, affected_rows: affected };
        proof {
            if r.rows@.len() > 0 {
                assert(r.spec_field_names() =~= spec_column_names(r.rows@[0].columns@));
                assert(r.field_type_oids@ =~= spec_column_oids(r.rows@[0].columns@));
            } else {
                assert(r.spec_field_names() =~= Seq::<Seq<char>>::empty());
            }
        }
        r
    }

    /// Builds a result for a command that returns no rows; the affected
    /// count is the server-reported one.
    pub fn from_command(affected_rows: u64) -> (r: Self)
        ensures
            r.wf(),
            r.rows@.len() == 0,
            r.field_names@.len() == 0,
            r.field_type_oids@.len() == 0,
            r.affected_rows == affected_rows,
    {
        PostgreSQLResult {
            rows: Vec::new(),
            field_names: Vec::new(),
            field_type_oids: Vec::new(),
            affected_rows,
        }
    }

    /// Builds a result from fetched rows and the column metadata of the
    /// prepared statement that produced them, so that metadata survives a
    /// zero-row result.
    pub fn from_rows_with_columns(rows: Vec<PgRow>, columns: &Vec<PgColumn>) -> (r: Self)
        requires
            forall|i: int| 0 <= i < rows@.len() ==> (#[trigger] rows@[i]).wf(),
        ensures
            r.wf(),
            r.rows@ == rows@,
            r.affected_rows == rows@.len(),
            r.spec_field_names() == spec_column_names(columns@),
            r.field_type_oids@ == spec_column_oids(columns@),
    {
        let mut field_names: Vec<String> = Vec::new();
        let mut field_type_oids: Vec<u32> = Vec::new();
        let ncols = columns.len();
        let mut i: usize = 0;
        while i < ncols
            invariant
                i <= ncols,
                ncols == columns@.len(),
                field_names@.len() == i,
                field_type_oids@.len() == i,
                forall|j: int| 0 <= j < i ==> (#[trigger] field_names@[j])@ == columns@[j].name@,
                forall|j: int| 0 <= j < i ==> #[trigger] field_type_oids@[j] == columns@[j].type_oid,
            decreases ncols - i,
        {
            let col = &columns[i];
            field_names.push(col.name.clone());
            field_type_oids.push(col.type_oid);
            i = i + 1;
        }
        let affected = rows.len() as u64;
        let r = PostgreSQLResult { rows, field_names, field_type_oids, affected_rows: affected };
        proof {
            assert(r.spec_field_names() =~= spec_column_names(columns@));
            assert(r.field_type_oids@ =~= spec_column_oids(columns@));
        }
        r
    }

    /// The number of rows affected: the row count of a data-returning
    /// statement, the server-reported count of a command.
    pub fn affected_rows(&self) -> (r: u64)
        ensures
            r == self.affected_rows,
    {
        self.affected_rows
    }

    /// The number of materialized rows; zero for a command result.
    pub fn num_rows(&self) -> (r: usize)
        ensures
            r == self.rows@.len(),
    {
        self.rows.len()
    }

    /// The number of fields in the column metadata.
    pub fn num_fields(&self) -> (r: usize)
        ensures
            r == self.field_names@.len(),
    {
        self.field_names.len()
    }

    /// The name of field `index`, or `None` when `index` is out of range.
    pub fn field_name(&self, index: usize) -> (r: Option<String>)
        ensures
            r is Some <==> index < self.field_names@.len(),
            r matches Some(name) ==> name@ == self.spec_field_names()[index as int],
    {
        if index < self.field_names.len() {
            Some(self.field_names[index].clone())
        } else {
            None
        }
    }

    /// The type identifier of field `index`, or `None` when out of range.
    pub fn field_type_oid(&self, index: usize) -> (r: Option<u32>)
        ensures
            r is Some <==> index < self.field_type_oids@.len(),
            r matches Some(oid) ==> oid == self.field_type_oids@[index as int],
    {
        if index < self.field_type_oids.len() {
            Some(self.field_type_oids[index])
        } else {
            None
        }
    }

    /// The canonical text at (`row`, `col`); `None` for a logical null and
    /// for any out-of-range index.
    pub fn get_value(&self, row: usize, col: usize) -> (r: Option<String>)
        requires
            self.wf(),
        ensures
            decoded_eq(r, self.spec_value_at(row as int, col as int)),
    {
        if row < self.rows.len() {
            get_value(&self.rows[row], col)
        } else {
            None
        }
    }

    /// A full-row snapshot: every field of row `index` decoded, or `None`
    /// when `index` is out of range.
    pub fn get_row(&self, index: usize) -> (r: Option<Vec<Option<String>>>)
        requires
            self.wf(),
        ensures
            r is Some <==> index < self.rows@.len(),
            r matches Some(values) ==> {
                &&& values@.len() == self.field_names@.len()
                &&& forall|j: int|
                    0 <= j < values@.len() ==> decoded_eq(
                        #[trigger] values@[j],
                        self.spec_value_at(index as int, j),
                    )
            },
    {
        if index < self.rows.len() {
            let nfields = self.num_fields();
            let mut values: Vec<Option<String>> = Vec::new();
            let mut col: usize = 0;
            while col < nfields
                invariant
                    col <= nfields,
                    index < self.rows@.len(),
                    self.wf(),
                    nfields == self.field_names@.len(),
                    values@.len() == col,
                    forall|j: int|
                        0 <= j < col ==> decoded_eq(
                            #[trigger] values@[j],
                            self.spec_value_at(index as int, j),
                        ),
                decreases nfields - col,
            {
                values.push(self.get_value(index, col));
                col = col + 1;
            }
            Some(values)
        } else {
            None
        }
    }
}

} // verus!
