//! How a connection to the configured database is made.

pub mod connection_manager;
