//! The declarative configuration from which the API is generated.

pub mod configuration;
pub mod shared;
pub mod specific;
