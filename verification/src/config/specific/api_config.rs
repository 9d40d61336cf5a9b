//! The configuration in the shape in which the configuration editor keeps it.

use crate::config::specific::auth_config::AuthConfig;
use crate::config::specific::cors_config::CorsConfig;
use crate::config::specific::database_config::DatabaseConfig;
use crate::config::specific::documentation_config::DocumentationConfig;
use crate::config::specific::entity_config::Entity;
use crate::config::specific::server_config::ServerConfig;
use vstd::prelude::*;

verus! {

/// Configuration for the entire API, including database, server, entities,
/// authentication, and more.
#[derive(Clone, Debug)]
pub struct ApiConfig {
    pub database_config: DatabaseConfig,
    pub server_config: ServerConfig,
    /// Entities exposed by the API.
    pub entities: Vec<Entity>,
    /// Global authentication configuration.
    pub global_auth: Option<AuthConfig>,
    pub cors_config: CorsConfig,
    pub documentation: DocumentationConfig,
    /// Prefix for API routes.
    pub api_prefix: Option<String>,
    /// Version of the API.
    pub api_version: String,
}

} // verus!
