//! The router.

pub mod api_adapter;
pub mod entity_mapping;
pub mod routing;
pub mod routing_laws;
