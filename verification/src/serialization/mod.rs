//! Reading and writing JSON text.

pub mod serialization_service;
