//! Cross-origin resource sharing settings.

use vstd::prelude::*;

verus! {

/// Configuration for Cross-Origin Resource Sharing (CORS).
#[derive(Debug)]
pub struct CorsConfig {
    pub allowed_origins: Vec<String>,
    pub allowed_methods: Vec<String>,
    pub allowed_headers: Vec<String>,
    /// Whether credentials are allowed in CORS requests.
    pub allow_credentials: bool,
    /// Maximum age for preflight requests in seconds.
    pub max_age_seconds: Option<u32>,
}

/// The CORS settings of a configuration that names none: nothing is allowed.
pub open spec fn default_cors(cors: CorsConfig) -> bool {
    &&& cors.allowed_origins@.len() == 0
    &&& cors.allowed_methods@.len() == 0
    &&& cors.allowed_headers@.len() == 0
    &&& !cors.allow_credentials
    &&& cors.max_age_seconds is None
}

/// Whether two CORS settings hold the same.
pub open spec fn same_cors(a: CorsConfig, b: CorsConfig) -> bool {
    &&& a.allowed_origins@ == b.allowed_origins@
    &&& a.allowed_methods@ == b.allowed_methods@
    &&& a.allowed_headers@ == b.allowed_headers@
    &&& a.allow_credentials == b.allow_credentials
    &&& a.max_age_seconds == b.max_age_seconds
}

impl Clone for CorsConfig {
    fn clone(&self) -> (r: Self)
        ensures
            same_cors(*self, r),
    {
        CorsConfig {
            allowed_origins: self.allowed_origins.clone(),
            allowed_methods: self.allowed_methods.clone(),
            allowed_headers: self.allowed_headers.clone(),
            allow_credentials: self.allow_credentials,
            max_age_seconds: self.max_age_seconds,
        }
    }
}

impl Default for CorsConfig {
    fn default() -> (r: Self)
        ensures
            default_cors(r),
    {
        CorsConfig {
            allowed_origins: Vec::new(),
            allowed_methods: Vec::new(),
            allowed_headers: Vec::new(),
            allow_credentials: false,
            max_age_seconds: None,
        }
    }
}

} // verus!
