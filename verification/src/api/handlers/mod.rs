//! The generated endpoint handlers and their registry.

pub mod common;
pub mod crud;
pub mod custom;
pub mod manager;
