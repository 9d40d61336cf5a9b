//! The plan for a connection pool: which driver, which target, how many
//! connections.

use crate::config::specific::database_config::{connection_url, DatabaseConfig, DatabaseType};
use vstd::prelude::*;

verus! {

/// Makes connections to the configured database.
pub struct ConnectionManager;

/// What a connection pool is opened with.
#[derive(Debug)]
pub struct ConnectionPlan {
    /// The driver that serves the database.
    pub driver: DatabaseType,
    /// The URL of the server, or the path of the database file.
    pub target: String,
    /// The largest number of connections in the pool.
    pub max_connections: u32,
}

/// The pool size where the configuration names none: one connection for a
/// database file, five for a server.
pub open spec fn default_pool_size(db_type: DatabaseType) -> u32 {
    match db_type {
        DatabaseType::SQLite => 1,
        _ => 5,
    }
}

/// The error for a database type that has no driver.
pub open spec fn no_driver() -> Seq<char> {
    "MongoDB connection using `mongodb` crate not implemented yet"@
}

impl ConnectionManager {
    /// Plans the connection pool for a configuration. PostgreSQL and MySQL
    /// are reached under their URL, SQLite under its connection string;
    /// MongoDB has no driver and is refused.
    pub fn plan(config: &DatabaseConfig) -> (r: Result<ConnectionPlan, String>)
        ensures
            match r {
                Ok(plan) => {
                    &&& config.db_type != DatabaseType::MongoDB
                    &&& plan.driver == config.db_type
                    &&& plan.target@ == if config.db_type == DatabaseType::SQLite {
                        config.connection_string@
                    } else {
                        connection_url(*config)
                    }
                    &&& plan.max_connections == match config.max_connections {
                        Some(n) => n,
                        None => default_pool_size(config.db_type),
                    }
                },
                Err(message) => config.db_type == DatabaseType::MongoDB && message@ == no_driver(),
            },
    {
        match config.db_type {
            DatabaseType::PostgreSQL | DatabaseType::MySQL => Ok(
                ConnectionPlan {
                    driver: config.db_type,
                    target: config.make_url(),
                    max_connections: match config.max_connections {
                        Some(n) => n,
                        None => 5,
                    },
                },
            ),
            DatabaseType::SQLite => Ok(
                ConnectionPlan {
                    driver: config.db_type,
                    target: config.connection_string.clone(),
                    max_connections: match config.max_connections {
                        Some(n) => n,
                        None => 1,
                    },
                },
            ),
            DatabaseType::MongoDB => Err(
                String::from_str("MongoDB connection using `mongodb` crate not implemented yet"),
            ),
        }
    }
}

} // verus!
