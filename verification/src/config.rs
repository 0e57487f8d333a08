//! Server configuration.
use crate::text::concat3;
use vstd::prelude::*;

verus! {

/// The server's configuration, as read from its YAML file.
#[derive(Debug, Clone)]
pub struct Config {
    pub hostname: String,
    pub http_scheme: String,
    pub frontend_url: String,
    pub database: DatabaseConfig,
    pub queue: QueueConfig,
    pub instance: InstanceConfig,
    pub upload_dir: String,
    pub dev: DevConfig,
    pub federation: FederationConfig,
}

#[derive(Debug, Clone)]
pub struct FederationConfig {
    pub enabled: bool,
}

#[derive(Debug, Clone)]
pub struct DevConfig {
    pub debug: bool,
    pub ssl_verify: bool,
}

#[derive(Debug, Clone)]
pub struct DatabaseConfig {
    pub path: String,
}

#[derive(Debug, Clone)]
pub struct QueueConfig {
    pub host: String,
    pub port: u16,
    pub user: String,
    pub password: String,
}

#[derive(Debug, Clone)]
pub struct InstanceConfig {
    pub name: String,
    pub description: String,
    pub open_registration: bool,
}

/// The URL under which the server publishes everything: `scheme://hostname`.
pub open spec fn base_url_text(scheme: Seq<char>, hostname: Seq<char>) -> Seq<char> {
    scheme + "://"@ + hostname
}

impl Config {
    pub open spec fn spec_base_url(&self) -> Seq<char> {
        base_url_text(self.http_scheme@, self.hostname@)
    }

    /// `scheme://hostname`.
    pub fn base_url(&self) -> (r: String)
        ensures
            r@ == self.spec_base_url(),
    {
        concat3(self.http_scheme.as_str(), "://", self.hostname.as_str())
    }
}

} // verus!
