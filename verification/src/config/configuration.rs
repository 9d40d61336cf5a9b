//! The configuration as the router reads it at request time.

use crate::config::shared::{same_basic_entities, EntityBasic};
use crate::config::specific::api_config::ApiConfig;
use crate::config::specific::auth_config::{same_auth, AuthConfig};
use crate::config::specific::cors_config::{default_cors, same_cors, CorsConfig};
use crate::config::specific::database_config::{default_database, DatabaseConfig};
use crate::config::specific::documentation_config::{
    default_documentation, DocumentationConfig,
};
use crate::config::specific::entity_config::{same_entities, Entity};
use crate::config::specific::server_config::{default_server, ServerConfig};
use crate::text::{concat2, concat4};
use vstd::prelude::*;

verus! {

/// Why a configuration could not be loaded.
#[derive(Clone, Debug)]
pub enum ConfigError {
    /// No file at the given path.
    FileNotFound(String),
    /// The file at the path could not be read; the second text says why.
    FileReadError(String, String),
    /// The file at the path is no configuration; the second text says why.
    DeserializeError(String, String),
    /// The configuration was read and breaks a rule.
    ValidationError(String),
}

/// The text of a configuration error.
pub open spec fn config_error_text(error: ConfigError) -> Seq<char> {
    match error {
        ConfigError::FileNotFound(path) => "Configuration file not found: "@ + path@,
        ConfigError::FileReadError(path, cause) => "Error reading configuration file "@ + path@
            + ": "@ + cause@,
        ConfigError::DeserializeError(path, cause) => "Error deserializing configuration file "@
            + path@ + ": "@ + cause@,
        ConfigError::ValidationError(message) => "Configuration validation error: "@ + message@,
    }
}

impl ConfigError {
    /// The text of the error.
    pub fn message(&self) -> (r: String)
        ensures
            r@ == config_error_text(*self),
    {
        match self {
            ConfigError::FileNotFound(path) => concat2(
                "Configuration file not found: ",
                path.as_str(),
            ),
            ConfigError::FileReadError(path, cause) => concat4(
                "Error reading configuration file ",
                path.as_str(),
                ": ",
                cause.as_str(),
            ),
            ConfigError::DeserializeError(path, cause) => concat4(
                "Error deserializing configuration file ",
                path.as_str(),
                ": ",
                cause.as_str(),
            ),
            ConfigError::ValidationError(message) => concat2(
                "Configuration validation error: ",
                message.as_str(),
            ),
        }
    }
}

/// The full user configuration.
#[derive(Debug)]
pub struct Config {
    /// Version of the API.
    pub api_version: String,
    /// Prefix under which the API is mounted, such as `/api`.
    pub api_prefix: Option<String>,
    pub server: ServerConfig,
    pub database: DatabaseConfig,
    /// Entities in short form.
    pub entities_basic: Vec<EntityBasic>,
    /// Entities in full form.
    pub entities_advanced: Vec<Entity>,
    pub auth: Option<AuthConfig>,
    pub cors: CorsConfig,
    pub documentation: DocumentationConfig,
}

/// Whether two configurations hold the same: every setting is equal, and
/// every list holds equal items in the same order.
pub open spec fn same_config(a: Config, b: Config) -> bool {
    &&& a.api_version == b.api_version
    &&& a.api_prefix == b.api_prefix
    &&& a.server == b.server
    &&& a.database == b.database
    &&& same_basic_entities(a.entities_basic@, b.entities_basic@)
    &&& same_entities(a.entities_advanced@, b.entities_advanced@)
    &&& match (a.auth, b.auth) {
        (Some(x), Some(y)) => same_auth(x, y),
        (None, None) => true,
        _ => false,
    }
    &&& same_cors(a.cors, b.cors)
    &&& a.documentation == b.documentation
}

impl Clone for Config {
    /// A copy of the configuration that holds the same.
    fn clone(&self) -> (r: Self)
        ensures
            same_config(*self, r),
    {
        Config {
            api_version: self.api_version.clone(),
            api_prefix: self.api_prefix.clone(),
            server: self.server.clone(),
            database: self.database.clone(),
            entities_basic: self.entities_basic.clone(),
            entities_advanced: self.entities_advanced.clone(),
            auth: match &self.auth {
                Some(auth) => Some(auth.clone()),
                None => None,
            },
            cors: self.cors.clone(),
            documentation: self.documentation.clone(),
        }
    }
}

/// The lowest port a configured server may listen on.
pub const MIN_SERVER_PORT: u16 = 1024;

/// The rule a loaded configuration has to meet: the server stays off the
/// privileged ports.
pub open spec fn valid_config(config: Config) -> bool {
    config.server.port >= MIN_SERVER_PORT
}

impl Config {
    /// A configuration with default values: version `1.0`, prefix `/api`, no
    /// entities, no authentication, and the default settings of server,
    /// database, CORS and documentation.
    pub fn new() -> (r: Self)
        ensures
            r.api_version@ == "1.0"@,
            (r.api_prefix matches Some(p) && p@ == "/api"@),
            r.entities_basic@.len() == 0,
            r.entities_advanced@.len() == 0,
            r.auth is None,
            default_server(r.server),
            default_database(r.database),
            default_cors(r.cors),
            default_documentation(r.documentation),
    {
        Config {
            api_version: String::from_str("1.0"),
            api_prefix: Some(String::from_str("/api")),
            server: ServerConfig::default(),
            database: DatabaseConfig::default(),
            entities_basic: Vec::new(),
            entities_advanced: Vec::new(),
            auth: None,
            cors: CorsConfig::default(),
            documentation: DocumentationConfig::default(),
        }
    }

    /// The configuration in the editor's shape. The entities in full form are
    /// handed over; the short forms have no place there.
    pub fn to_api_config(self) -> (r: ApiConfig)
        ensures
            r.database_config == self.database,
            r.server_config == self.server,
            r.entities == self.entities_advanced,
            r.global_auth == self.auth,
            r.cors_config == self.cors,
            r.documentation == self.documentation,
            r.api_prefix == self.api_prefix,
            r.api_version == self.api_version,
    {
        ApiConfig {
            database_config: self.database,
            server_config: self.server,
            entities: self.entities_advanced,
            global_auth: self.auth,
            cors_config: self.cors,
            documentation: self.documentation,
            api_prefix: self.api_prefix,
            api_version: self.api_version,
        }
    }

    /// The configuration made from the editor's shape.
    pub fn from_api_config(api_config: ApiConfig) -> (r: Self)
        ensures
            r.api_version == api_config.api_version,
            r.api_prefix == api_config.api_prefix,
            r.server == api_config.server_config,
            r.database == api_config.database_config,
            r.entities_advanced == api_config.entities,
            r.entities_basic@.len() == 0,
            r.auth == api_config.global_auth,
            r.cors == api_config.cors_config,
            r.documentation == api_config.documentation,
    {
        Config {
            api_version: api_config.api_version,
            api_prefix: api_config.api_prefix,
            server: api_config.server_config,
            database: api_config.database_config,
            entities_basic: Vec::new(),
            entities_advanced: api_config.entities,
            auth: api_config.global_auth,
            cors: api_config.cors_config,
            documentation: api_config.documentation,
        }
    }

    /// Checks a configuration against the rule of [`valid_config`].
    pub fn validate(config: &Config) -> (r: Result<(), ConfigError>)
        ensures
            valid_config(*config) ==> r is Ok,
            !valid_config(*config) ==> (r matches Err(ConfigError::ValidationError(m)) && m@
                == "Server port must be between 1024 and 65535"@),
    {
        if config.server.port < MIN_SERVER_PORT {
            return Err(
                ConfigError::ValidationError(
                    String::from_str("Server port must be between 1024 and 65535"),
                ),
            );
        }
        Ok(())
    }

    /// Replaces this configuration by a freshly read one, if that one is
    /// valid; an invalid one is rejected and nothing changes.
    pub fn set_config(&mut self, new_config: Config) -> (r: Result<(), ConfigError>)
        ensures
            valid_config(new_config) ==> r is Ok && *final(self) == new_config,
            !valid_config(new_config) ==> *final(self) == *old(self) && (r matches Err(
                ConfigError::ValidationError(m),
            ) && m@ == "Server port must be between 1024 and 65535"@),
    {
        match Config::validate(&new_config) {
            Ok(()) => {
                *self = new_config;
                Ok(())
            },
            Err(e) => Err(e),
        }
    }
}

} // verus!
