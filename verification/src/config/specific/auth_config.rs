//! Global authentication settings. They are carried through the
//! configuration; nothing in the router enforces them.

use vstd::prelude::*;

verus! {

/// Configuration for authentication.
#[derive(Debug)]
pub struct AuthConfig {
    /// Type of authentication to use.
    pub auth_type: AuthType,
    pub jwt_config: Option<JWTConfig>,
    pub oauth_config: Option<OAuthConfig>,
    pub api_key_config: Option<ApiKeyConfig>,
}

/// Supported kinds of authentication.
#[derive(Clone, Copy, Debug, PartialEq, Eq, Structural)]
pub enum AuthType {
    JWT,
    OAuth,
    ApiKey,
    Basic,
    /// No authentication.
    Disabled,
}

/// Settings of JWT authentication.
#[derive(Debug)]
pub struct JWTConfig {
    pub secret: String,
    pub expiration_hours: u32,
    pub issuer: Option<String>,
    pub refresh_token_enabled: bool,
}

/// Settings of OAuth authentication.
#[derive(Debug)]
pub struct OAuthConfig {
    pub providers: Vec<OAuthProvider>,
    pub callback_url: String,
}

/// One OAuth provider.
#[derive(Debug)]
pub struct OAuthProvider {
    pub name: String,
    pub client_id: String,
    pub client_secret: String,
    pub auth_url: String,
    pub token_url: String,
}

/// Settings of API key authentication.
#[derive(Debug)]
pub struct ApiKeyConfig {
    pub header_name: String,
    pub prefix: Option<String>,
}

impl Clone for JWTConfig {
    fn clone(&self) -> (r: Self)
        ensures
            r == *self,
    {
        JWTConfig {
            secret: self.secret.clone(),
            expiration_hours: self.expiration_hours,
            issuer: self.issuer.clone(),
            refresh_token_enabled: self.refresh_token_enabled,
        }
    }
}

impl Clone for OAuthProvider {
    fn clone(&self) -> (r: Self)
        ensures
            r == *self,
    {
        OAuthProvider {
            name: self.name.clone(),
            client_id: self.client_id.clone(),
            client_secret: self.client_secret.clone(),
            auth_url: self.auth_url.clone(),
            token_url: self.token_url.clone(),
        }
    }
}

impl Clone for ApiKeyConfig {
    fn clone(&self) -> (r: Self)
        ensures
            r == *self,
    {
        ApiKeyConfig { header_name: self.header_name.clone(), prefix: self.prefix.clone() }
    }
}

/// Whether two OAuth settings hold the same: the same providers in the same
/// order and the same callback.
pub open spec fn same_oauth(a: OAuthConfig, b: OAuthConfig) -> bool {
    a.providers@ == b.providers@ && a.callback_url == b.callback_url
}

impl Clone for OAuthConfig {
    fn clone(&self) -> (r: Self)
        ensures
            same_oauth(*self, r),
    {
        OAuthConfig { providers: self.providers.clone(), callback_url: self.callback_url.clone() }
    }
}

/// Whether two authentication settings hold the same.
pub open spec fn same_auth(a: AuthConfig, b: AuthConfig) -> bool {
    &&& a.auth_type == b.auth_type
    &&& a.jwt_config == b.jwt_config
    &&& match (a.oauth_config, b.oauth_config) {
        (Some(x), Some(y)) => same_oauth(x, y),
        (None, None) => true,
        _ => false,
    }
    &&& a.api_key_config == b.api_key_config
}

impl Clone for AuthConfig {
    fn clone(&self) -> (r: Self)
        ensures
            same_auth(*self, r),
    {
        AuthConfig {
            auth_type: self.auth_type,
            jwt_config: self.jwt_config.clone(),
            oauth_config: match &self.oauth_config {
                Some(oauth) => Some(oauth.clone()),
                None => None,
            },
            api_key_config: self.api_key_config.clone(),
        }
    }
}

} // verus!
