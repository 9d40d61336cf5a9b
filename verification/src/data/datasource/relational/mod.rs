//! Relational databases: table mappings, SQL text and row conversion.

pub mod base;
pub mod mariadb;
pub mod queries;
pub mod round_trip;
pub mod rows;
pub mod statements;
pub mod values;
