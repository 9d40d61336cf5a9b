//! The datasource capability and the backends that provide it.

pub mod base;
pub mod document;
pub mod file;
pub mod relational;
pub mod relationaldb_ds;
