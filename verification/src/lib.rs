//! Client-side query execution layer for a PostgreSQL server.
//!
//! The crate covers the streaming query result engine (a cursor-based state
//! machine that fetches large result sets in bounded-memory batches while
//! tracking transaction ownership) and the polymorphic value-decoding scheme
//! that turns type-unknown column values into one canonical text form.
//! Establishing the session and moving bytes over the wire belong to the
//! surrounding application; this library decides what to send and what every
//! answer means.

pub mod errors;
pub mod result;
pub mod sql;
pub mod streaming_result;
pub mod text;
pub mod value;
