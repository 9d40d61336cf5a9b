//! File-backed datasources.

pub mod base;
pub mod csv;
