//! A data-access service core: a registry of named storage connections
//! with a deterministic default, a lossless bridge between wire and
//! storage values, the statements of an SQLite backend, the mapping of
//! backend failures to the errors that callers see, and the streaming
//! protocol that sends query results as a descriptor, rows, and at most
//! one error.

pub mod value;
pub mod fields;
pub mod columns;
pub mod text;
pub mod sql;
pub mod storage;
pub mod batch;
pub mod registry;
pub mod dispatch;
pub mod stream;
pub mod validation;
pub mod schema;
pub mod seed;
pub mod cli;
pub mod client;
