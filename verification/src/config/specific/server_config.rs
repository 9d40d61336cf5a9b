//! Settings of the HTTP server.

use vstd::prelude::*;

verus! {

/// Configuration for the server.
#[derive(Debug)]
pub struct ServerConfig {
    /// Hostname or IP address where the server will run.
    pub host: String,
    /// Port number for the server.
    pub port: u16,
    /// Timeout for requests in seconds.
    pub request_timeout_seconds: u32,
    /// Maximum payload size in megabytes.
    pub max_payload_size_mb: u32,
    /// Rate limiting, where it is switched on.
    pub rate_limiting: Option<RateLimitConfig>,
    /// Logging level for the server.
    pub logging_level: LogLevel,
}

/// Configuration for rate limiting.
#[derive(Clone, Copy, Debug)]
pub struct RateLimitConfig {
    /// Maximum number of requests allowed per minute.
    pub requests_per_minute: u32,
    /// Burst capacity.
    pub burst: u32,
}

/// Logging levels for the server.
#[derive(Clone, Copy, Debug, PartialEq, Eq, Structural)]
pub enum LogLevel {
    Debug,
    Info,
    Warning,
    Error,
}

impl Clone for ServerConfig {
    fn clone(&self) -> (r: Self)
        ensures
            r == *self,
    {
        ServerConfig {
            host: self.host.clone(),
            port: self.port,
            request_timeout_seconds: self.request_timeout_seconds,
            max_payload_size_mb: self.max_payload_size_mb,
            rate_limiting: self.rate_limiting,
            logging_level: self.logging_level,
        }
    }
}

/// The server settings of a configuration that names none: the loopback
/// address, port 8000, 30 seconds for a request, 2 megabytes for a payload, no
/// rate limiting, logging at `Info`.
pub open spec fn default_server(server: ServerConfig) -> bool {
    &&& server.host@ == "127.0.0.1"@
    &&& server.port == 8000
    &&& server.request_timeout_seconds == 30
    &&& server.max_payload_size_mb == 2
    &&& server.rate_limiting is None
    &&& server.logging_level == LogLevel::Info
}

impl Default for ServerConfig {
    fn default() -> (r: Self)
        ensures
            default_server(r),
    {
        ServerConfig {
            host: String::from_str("127.0.0.1"),
            port: 8000,
            request_timeout_seconds: 30,
            max_payload_size_mb: 2,
            rate_limiting: None,
            logging_level: LogLevel::Info,
        }
    }
}

} // verus!
