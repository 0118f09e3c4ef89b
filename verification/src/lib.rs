//! Streaming query execution for Postgres, MySQL and SQLite connections.
//!
//! The crate holds the decisions of the row-streaming layer: the cursor state
//! machines that turn protocol messages into rows, the per-connection statement
//! cache, the row and value model, and the composite (record) codec. Everything
//! here works on plain values; sockets, pools and futures live with the caller.

pub mod connection;
pub mod database;
pub mod decode;
pub mod derives;
pub mod encode;
pub mod error;
pub mod io;
pub mod mysql;
pub mod postgres;
pub mod row;
pub mod sqlite;
pub mod text;
pub mod types;
pub mod value;
