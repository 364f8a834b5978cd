use sp_postgresql::result::{PgColumn, PgRow, PostgreSQLResult};
use sp_postgresql::value::WireCell;

fn int_cell(v: i32) -> WireCell {
    let mut cell = WireCell::empty();
    cell.int4 = Some(v);
    cell
}

fn text_cell(s: &str) -> WireCell {
    let mut cell = WireCell::empty();
    cell.text = Some(String::from(s));
    cell
}

fn null_cell() -> WireCell {
    let mut cell = WireCell::empty();
    cell.null = true;
    cell
}

fn two_columns() -> Vec<PgColumn> {
    vec![
        PgColumn { name: String::from("id"), type_oid: 23 },
        PgColumn { name: String::from("label"), type_oid: 25 },
    ]
}

fn row(cells: Vec<WireCell>) -> PgRow {
    PgRow { columns: two_columns(), cells }
}

#[test]
fn test_empty_result() {
    let result = PostgreSQLResult::from_rows(Vec::new());
    assert_eq!(result.num_rows(), 0);
    assert_eq!(result.num_fields(), 0);
}

#[test]
fn test_command_result_has_no_rows() {
    let result = PostgreSQLResult::from_command(42);
    assert_eq!(result.num_rows(), 0);
    assert_eq!(result.num_fields(), 0);
    assert_eq!(result.affected_rows(), 42);
}

#[test]
fn test_from_rows_takes_metadata_from_first_row() {
    let rows = vec![row(vec![int_cell(1), text_cell("one")])];
    let result = PostgreSQLResult::from_rows(rows);
    assert_eq!(result.num_rows(), 1);
    assert_eq!(result.num_fields(), 2);
    assert_eq!(result.field_name(0).unwrap(), "id");
    assert_eq!(result.field_name(1).unwrap(), "label");
    assert_eq!(result.field_type_oid(0), Some(23));
    assert_eq!(result.field_type_oid(1), Some(25));
    assert_eq!(result.affected_rows(), 1);
}

#[test]
fn test_metadata_survives_zero_row_result() {
    let columns = two_columns();
    let result = PostgreSQLResult::from_rows_with_columns(Vec::new(), &columns);
    assert_eq!(result.num_rows(), 0);
    assert_eq!(result.num_fields(), 2);
    assert_eq!(result.field_name(0).unwrap(), "id");
    assert_eq!(result.field_name(1).unwrap(), "label");
    assert_eq!(result.field_type_oid(1), Some(25));
}

#[test]
fn test_field_name_out_of_range() {
    let columns = two_columns();
    let result = PostgreSQLResult::from_rows_with_columns(Vec::new(), &columns);
    assert_eq!(result.field_name(2), None);
    assert_eq!(result.field_type_oid(2), None);
}

#[test]
fn test_get_value_decodes_and_bounds_checks() {
    let rows = vec![
        row(vec![int_cell(7), text_cell("seven")]),
        row(vec![int_cell(-3), null_cell()]),
    ];
    let columns = two_columns();
    let result = PostgreSQLResult::from_rows_with_columns(rows, &columns);
    assert_eq!(result.get_value(0, 0).unwrap(), "7");
    assert_eq!(result.get_value(0, 1).unwrap(), "seven");
    assert_eq!(result.get_value(1, 0).unwrap(), "-3");
    assert_eq!(result.get_value(1, 1), None);
    assert_eq!(result.get_value(2, 0), None);
    assert_eq!(result.get_value(0, 2), None);
}

#[test]
fn test_get_row_snapshot() {
    let rows = vec![row(vec![int_cell(7), null_cell()])];
    let columns = two_columns();
    let result = PostgreSQLResult::from_rows_with_columns(rows, &columns);
    let snapshot = result.get_row(0).unwrap();
    assert_eq!(snapshot.len(), 2);
    assert_eq!(snapshot[0].as_deref(), Some("7"));
    assert_eq!(snapshot[1], None);
    assert!(result.get_row(1).is_none());
}
