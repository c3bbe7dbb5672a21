//! Storage schemas and key layouts of the key-value store backends.

pub mod shared;
pub mod options;
pub mod list_sql;
pub mod flat;
pub mod postgres;
pub mod sqlite;
pub mod sqlite_sql;
pub mod dynamodb;
pub mod rocksdb;
pub mod legacy;
pub mod d1;
pub mod sql_laws;
