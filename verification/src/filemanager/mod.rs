//! Where the configuration files of a user live.

pub mod directory;
pub mod file;
