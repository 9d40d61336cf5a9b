//! The request layer: the router, the per-entity handler registries and the
//! conversions that a transport needs.

pub mod adapters;
pub mod common;
pub mod datasource_integration;
pub mod handlers;
pub mod transport;
