use vstd::prelude::*;

verus! {

/// The settings of the whole service, as read from its configuration file.
#[derive(Clone, Debug)]
pub struct Config {
    pub server: ServerConfig,
    pub database: DatabaseConfig,
    pub redis: RedisConfig,
    pub session: SessionConfig,
    pub oauth: OAuthConfig,
    pub smtp: SmtpConfig,
}

#[derive(Clone, Debug)]
pub struct ServerConfig {
    pub protocol: String,
    pub base_url: String,
    pub port: u16,
    pub env: String,
}

#[derive(Clone, Debug)]
pub struct DatabaseConfig {
    pub url: String,
}

#[derive(Clone, Debug)]
pub struct RedisConfig {
    pub url: String,
}

#[derive(Clone, Debug)]
pub struct SessionConfig {
    pub secret: String,
}

#[derive(Clone, Debug)]
pub struct OAuthConfig {
    pub google: ProviderConfig,
}

#[derive(Clone, Debug)]
pub struct ProviderConfig {
    pub client_id: String,
    pub client_secret: String,
    pub redirect_url: String,
}

/// Outbound mail: the transport settings and what the messages carry.
#[derive(Clone, Debug)]
pub struct SmtpConfig {
    pub server: String,
    pub port: u16,
    pub username: String,
    pub password: String,
    /// The sender address of every notification.
    pub email_from: String,
    /// The base of the links that notifications carry.
    pub frontend_url: String,
    /// `none`, `required` or `opportunistic`.
    pub tls_mode: String,
}

} // verus!
