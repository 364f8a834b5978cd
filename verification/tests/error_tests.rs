use sp_postgresql::errors::PostgreSQLError;

#[test]
fn test_error_display() {
    let err = PostgreSQLError::NotConnected;
    assert_eq!(err.message(), "Not connected to PostgreSQL server");
}

#[test]
fn test_error_connection_failed_message() {
    let err = PostgreSQLError::ConnectionFailed(String::from("refused"));
    assert_eq!(err.message(), "Connection failed: refused");
}

#[test]
fn test_error_query_failed_message() {
    let err = PostgreSQLError::QueryFailed(String::from("syntax error"));
    assert_eq!(err.message(), "Query failed: syntax error");
}

#[test]
fn test_error_invalid_parameter_message() {
    let err = PostgreSQLError::InvalidParameter(String::from("batch size must be positive"));
    assert_eq!(err.message(), "Invalid parameter: batch size must be positive");
}
