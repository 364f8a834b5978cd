use sp_postgresql::result::PgRow;
use sp_postgresql::streaming_result::{OpenAction, PostgreSQLStreamingResult};
use sp_postgresql::value::WireCell;

fn int_row(v: i32) -> PgRow {
    let mut cell = WireCell::empty();
    cell.int4 = Some(v);
    PgRow { columns: Vec::new(), cells: vec![cell] }
}

fn open_cursor(begin_ok: bool, batch_size: usize) -> PostgreSQLStreamingResult {
    PostgreSQLStreamingResult::new(
        String::from("sequel_ace_cursor_1_1"),
        begin_ok,
        vec![String::from("n")],
        vec![23],
        batch_size,
    )
}

/// Drives one fetch round: what a correct server answers to the requested
/// fetch, given the full row set it serves from.
fn serve(cursor: &mut PostgreSQLStreamingResult, rows: &[i32], served_so_far: &mut usize) -> usize {
    match cursor.next_batch_sql() {
        None => cursor.next_batch(Vec::new()),
        Some(sql) => {
            assert_eq!(sql, "FETCH FORWARD 2 FROM sequel_ace_cursor_1_1");
            let take = rows.len().saturating_sub(*served_so_far).min(2);
            let batch: Vec<PgRow> = rows[*served_so_far..*served_so_far + take]
                .iter()
                .map(|v| int_row(*v))
                .collect();
            *served_so_far += take;
            cursor.next_batch(batch)
        },
    }
}

fn batch_values(cursor: &PostgreSQLStreamingResult) -> Vec<String> {
    let mut out = Vec::new();
    for i in 0..cursor.current_batch_size() {
        out.push(cursor.get_batch_value(i, 0).unwrap());
    }
    out
}

#[test]
fn test_stream_five_rows_in_pairs() {
    // Rows 1..5 with batch_size = 2: batches [1,2], [3,4], [5], then one
    // empty batch; total_rows stays at the unknown sentinel throughout.
    let rows = [1, 2, 3, 4, 5];
    let mut served: usize = 0;
    let mut cursor = open_cursor(true, 2);
    assert_eq!(cursor.total_rows(), -1);
    assert!(cursor.has_more());

    assert_eq!(serve(&mut cursor, &rows, &mut served), 2);
    assert_eq!(batch_values(&cursor), vec!["1", "2"]);
    assert!(cursor.has_more());
    assert_eq!(cursor.total_rows(), -1);

    assert_eq!(serve(&mut cursor, &rows, &mut served), 2);
    assert_eq!(batch_values(&cursor), vec!["3", "4"]);
    assert!(cursor.has_more());

    assert_eq!(serve(&mut cursor, &rows, &mut served), 1);
    assert_eq!(batch_values(&cursor), vec!["5"]);
    assert!(cursor.has_more());
    assert_eq!(cursor.total_rows(), -1);

    // The fetch after the last partial batch comes back empty and ends the
    // stream.
    assert_eq!(serve(&mut cursor, &rows, &mut served), 0);
    assert_eq!(cursor.current_batch_size(), 0);
    assert!(!cursor.has_more());
    assert_eq!(cursor.total_rows(), -1);
    assert_eq!(served, 5);

    // Thereafter every call yields an empty batch without requesting any
    // statement.
    assert_eq!(cursor.next_batch_sql(), None);
    assert_eq!(serve(&mut cursor, &rows, &mut served), 0);
    assert_eq!(served, 5);
}

#[test]
fn test_batch_is_replaced_not_accumulated() {
    let rows = [10, 20, 30];
    let mut served: usize = 0;
    let mut cursor = open_cursor(true, 2);
    serve(&mut cursor, &rows, &mut served);
    assert_eq!(cursor.current_batch_size(), 2);
    serve(&mut cursor, &rows, &mut served);
    // Only the last batch is held.
    assert_eq!(cursor.current_batch_size(), 1);
    assert_eq!(batch_values(&cursor), vec!["30"]);
}

#[test]
fn test_zero_row_stream_keeps_column_metadata() {
    // The metadata probe returned no row, so the columns come from the
    // prepared zero-row statement; the cursor still names them correctly.
    let action = sp_postgresql::streaming_result::probe_followup(
        false,
        "sequel_ace_cursor_1_1",
        "SELECT id, label FROM t WHERE false",
    );
    match action {
        OpenAction::PrepareMetadata(sql) => {
            assert_eq!(
                sql,
                "SELECT * FROM (SELECT id, label FROM t WHERE false) AS meta_query LIMIT 0"
            );
        },
        OpenAction::MoveBack(_) => panic!("expected the metadata-only path"),
    }
    let cursor = PostgreSQLStreamingResult::new(
        String::from("sequel_ace_cursor_1_1"),
        true,
        vec![String::from("id"), String::from("label")],
        vec![23, 25],
        100,
    );
    assert_eq!(cursor.num_columns(), 2);
    assert_eq!(cursor.column_names()[0], "id");
    assert_eq!(cursor.column_names()[1], "label");
    assert_eq!(cursor.type_oid(0), Some(23));
    assert_eq!(cursor.type_oid(1), Some(25));
    assert_eq!(cursor.type_oid(2), None);
}

#[test]
fn test_probe_row_present_moves_cursor_back() {
    let action = sp_postgresql::streaming_result::probe_followup(
        true,
        "sequel_ace_cursor_1_1",
        "SELECT 1",
    );
    match action {
        OpenAction::MoveBack(sql) => {
            assert_eq!(sql, "MOVE BACKWARD 1 FROM sequel_ace_cursor_1_1");
        },
        OpenAction::PrepareMetadata(_) => panic!("expected the move-back path"),
    }
}

#[test]
fn test_close_twice_touches_server_once() {
    let mut cursor = open_cursor(true, 2);
    let first = cursor.close_request();
    assert!(first.is_some());
    let actions = first.unwrap();
    assert_eq!(actions.close_cursor, "CLOSE sequel_ace_cursor_1_1");
    assert_eq!(actions.commit.as_deref(), Some("COMMIT"));
    cursor.close();
    assert!(cursor.cursor_closed);
    assert!(cursor.finished);
    // The second close finds nothing left to send and changes nothing.
    assert!(cursor.close_request().is_none());
    cursor.close();
    assert!(cursor.cursor_closed);
}

#[test]
fn test_close_commits_only_when_transaction_is_owned() {
    let owning = open_cursor(true, 2);
    assert!(owning.owns_transaction);
    assert!(owning.close_request().unwrap().commit.is_some());

    let borrowed = open_cursor(false, 2);
    assert!(!borrowed.owns_transaction);
    assert!(borrowed.close_request().unwrap().commit.is_none());
}

#[test]
fn test_disconnect_absorbs_everything() {
    let rows = [1, 2, 3];
    let mut served: usize = 0;
    let mut cursor = open_cursor(true, 2);
    serve(&mut cursor, &rows, &mut served);
    cursor.mark_client_disconnected();
    assert!(!cursor.has_more());
    // No fetch and no close statement is ever requested again.
    assert_eq!(cursor.next_batch_sql(), None);
    assert!(cursor.close_request().is_none());
    assert_eq!(cursor.next_batch(vec![int_row(9)]), 0);
    // The close after a disconnect is a successful no-op.
    cursor.close();
    assert!(!cursor.cursor_closed);
    assert!(cursor.client_disconnected);
}
