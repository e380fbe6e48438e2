//! Settings of the service, as plain values.
use vstd::prelude::*;

use crate::claims_json::{int_string, int_text};
use crate::rate_limit::RateLimitConfig;

verus! {

#[derive(Clone, Debug, PartialEq, Eq)]
pub struct ServerConfig {
    pub host: String,
    pub port: u16,
}

#[derive(Clone, Debug, PartialEq, Eq)]
pub struct DatabaseConfig {
    pub uri: String,
    pub max_connections: u32,
}

#[derive(Clone, Debug, PartialEq, Eq)]
pub struct TelemetryConfig {
    pub service_name: String,
    pub log_level: String,
}

#[derive(Clone, Debug, PartialEq, Eq)]
pub struct AuthConfig {
    pub jwt_secret: String,
    pub jwt_ttl_minutes: i64,
}

#[derive(Clone, Debug, PartialEq, Eq)]
pub struct BootstrapConfig {
    pub enabled: bool,
    pub admin_name: String,
    pub admin_email: String,
    pub admin_password: String,
}

#[derive(Clone, Debug, PartialEq, Eq)]
pub struct AppConfig {
    pub server: ServerConfig,
    pub database: DatabaseConfig,
    pub telemetry: TelemetryConfig,
    pub rate_limit: RateLimitConfig,
    pub auth: AuthConfig,
    pub bootstrap: BootstrapConfig,
}

impl AppConfig {
    /// `host:port`, the address to listen on.
    pub fn address(&self) -> (r: String)
        ensures
            r@ == self.server.host@ + ":"@ + int_text(self.server.port as int),
    {
        let mut r = self.server.host.clone();
        r.append(":");
        let port = int_string(self.server.port as i64);
        r.append(port.as_str());
        r
    }

    /// A token lifetime below one minute cannot start the service.
    pub fn ttl_is_valid(&self) -> (r: bool)
        ensures
            r == (self.auth.jwt_ttl_minutes > 0),
    {
        self.auth.jwt_ttl_minutes > 0
    }
}

} // verus!
