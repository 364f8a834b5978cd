use sp_postgresql::sql::{
    begin_sql, close_cursor_sql, commit_sql, cursor_name_for, declare_sql, escape_string,
    fetch_forward_sql, is_command, list_tables_sql, metadata_only_sql, move_backward_sql,
};

#[test]
fn test_escape_string() {
    let escaped = escape_string("It's a test");
    assert_eq!(escaped, "It''s a test");
}

#[test]
fn test_escape_string_edge_cases() {
    assert_eq!(escape_string(""), "");
    assert_eq!(escape_string("''"), "''''");
    assert_eq!(escape_string("no quotes"), "no quotes");
}

#[test]
fn test_cursor_name_embeds_process_and_time() {
    let name = cursor_name_for(1234, 567890);
    assert_eq!(name, "sequel_ace_cursor_1234_567890");
}

#[test]
fn test_declare_sql() {
    assert_eq!(
        declare_sql("cur1", "SELECT * FROM t"),
        "DECLARE cur1 SCROLL CURSOR FOR SELECT * FROM t"
    );
}

#[test]
fn test_fetch_forward_sql() {
    assert_eq!(fetch_forward_sql(1000, "cur1"), "FETCH FORWARD 1000 FROM cur1");
    assert_eq!(fetch_forward_sql(1, "cur1"), "FETCH FORWARD 1 FROM cur1");
}

#[test]
fn test_move_backward_sql() {
    assert_eq!(move_backward_sql("cur1"), "MOVE BACKWARD 1 FROM cur1");
}

#[test]
fn test_metadata_only_sql() {
    assert_eq!(
        metadata_only_sql("SELECT a FROM t WHERE false"),
        "SELECT * FROM (SELECT a FROM t WHERE false) AS meta_query LIMIT 0"
    );
}

#[test]
fn test_close_and_transaction_sql() {
    assert_eq!(close_cursor_sql("cur1"), "CLOSE cur1");
    assert_eq!(begin_sql(), "BEGIN");
    assert_eq!(commit_sql(), "COMMIT");
}

#[test]
fn test_list_tables_sql_escapes_schema() {
    assert_eq!(
        list_tables_sql("pub'lic"),
        "SELECT tablename FROM pg_tables WHERE schemaname = 'pub''lic' ORDER BY tablename"
    );
}

#[test]
fn test_is_command_recognizes_commands() {
    assert!(is_command("UPDATE t SET a = 1"));
    assert!(is_command("delete from t"));
    assert!(is_command("  \t\n Insert INTO t VALUES (1)"));
    // Classification goes by prefix, as the statement keywords are free-standing
    // words in any statement the server would accept.
    assert!(is_command("UPDATERS"));
}

#[test]
fn test_is_command_rejects_queries() {
    assert!(!is_command("SELECT * FROM t"));
    assert!(!is_command("  WITH x AS (SELECT 1) SELECT * FROM x"));
    assert!(!is_command(""));
    assert!(!is_command("   "));
}
