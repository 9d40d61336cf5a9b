//! The parts of the configuration, one module each.

pub mod api_config;
pub mod auth_config;
pub mod cors_config;
pub mod database_config;
pub mod documentation_config;
pub mod entity_config;
pub mod server_config;
