//! Document stores.

pub mod base;
