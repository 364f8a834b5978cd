//! The error taxonomy of the query layer.
//!
//! Failures during cursor declaration, metadata probing or batch fetching
//! propagate as one of these; a failed transaction begin at open time and any
//! failure during cleanup are not errors and never appear here.

use vstd::prelude::*;
use vstd::string::StringExecFns;

verus! {

/// What can go wrong between a caller and the server.
#[derive(Clone, Debug)]
pub enum PostgreSQLError {
    /// No live session.
    NotConnected,
    /// The session could not be established.
    ConnectionFailed(String),
    /// The server rejected a statement: a query, a declare, a probe or a
    /// fetch.
    QueryFailed(String),
    /// Malformed caller input.
    InvalidParameter(String),
}

impl PostgreSQLError {
    /// The text of each error: a fixed phrase, with the server's or the
    /// caller's detail appended where one exists.
    pub open spec fn spec_message(&self) -> Seq<char> {
        match self {
            PostgreSQLError::NotConnected => "Not connected to PostgreSQL server"@,
            PostgreSQLError::ConnectionFailed(m) => "Connection failed: "@ + m@,
            PostgreSQLError::QueryFailed(m) => "Query failed: "@ + m@,
            PostgreSQLError::InvalidParameter(m) => "Invalid parameter: "@ + m@,
        }
    }

    /// The human-readable message of this error.
    pub fn message(&self) -> (s: String)
        ensures
            s@ == self.spec_message(),
    {
        match self {
            PostgreSQLError::NotConnected => String::from_str(
                "Not connected to PostgreSQL server",
            ),
            PostgreSQLError::ConnectionFailed(m) => {
                let mut s = String::from_str("Connection failed: ");
                s.append(m.as_str());
                s
            },
            PostgreSQLError::QueryFailed(m) => {
                let mut s = String::from_str("Query failed: ");
                s.append(m.as_str());
                s
            },
            PostgreSQLError::InvalidParameter(m) => {
                let mut s = String::from_str("Invalid parameter: ");
                s.append(m.as_str());
                s
            },
        }
    }
}

} // verus!
