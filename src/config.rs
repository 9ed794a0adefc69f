//! Configuration defaults of the server.
use vstd::prelude::*;
use std::time::Duration;

verus! {

/// Default application name.
pub const DEFAULT_APP_NAME: &'static str = "Platypus App";

/// Default host to bind to.
pub const DEFAULT_HOST: &'static str = "127.0.0.1";

/// Default port to listen on.
pub const DEFAULT_PORT: u16 = 8501;

/// Default largest request body, in bytes (100 MiB).
pub const DEFAULT_MAX_BODY_SIZE: u64 = 104857600;

/// Default session timeout, in seconds (one hour).
pub const DEFAULT_SESSION_TIMEOUT: u64 = 3600;

/// Default output directory for builds.
pub const DEFAULT_OUTPUT_DIR: &'static str = "dist";

/// Default template for new projects.
pub const DEFAULT_TEMPLATE: &'static str = "basic";

/// Health check endpoint path.
pub const HEALTH_CHECK_PATH: &'static str = "/health";

/// App info endpoint path.
pub const APP_INFO_PATH: &'static str = "/api/info";

/// Index page path.
pub const INDEX_PATH: &'static str = "/";

/// WebSocket endpoint path.
pub const WEBSOCKET_PATH: &'static str = "/ws";

/// Log level in verbose mode.
pub const VERBOSE_LOG_LEVEL: &'static str = "debug";

/// Log level in normal mode.
pub const NORMAL_LOG_LEVEL: &'static str = "info";

/// Relies on `std::time::Duration::from_secs`: a span of whole seconds.
#[verifier::external_body]
fn duration_of_secs(secs: u64) -> (r: Duration) {
    Duration::from_secs(secs)
}

/// The session timeout as a span of time.
pub fn session_timeout_duration() -> (r: Duration) {
    duration_of_secs(DEFAULT_SESSION_TIMEOUT)
}

/// The largest request body, in bytes, as a `usize`.
pub fn max_body_size_usize() -> (r: usize)
    ensures
        r == DEFAULT_MAX_BODY_SIZE,
{
    DEFAULT_MAX_BODY_SIZE as usize
}

/// Settings of the server.
#[derive(Debug, Clone, PartialEq)]
pub struct ServerConfig {
    /// Application name.
    pub app_name: String,
    /// Host to bind to.
    pub host: String,
    /// Port to listen on.
    pub port: u16,
    /// Largest request body, in bytes.
    pub max_body_size: u64,
    /// Session timeout, in seconds.
    pub session_timeout: u64,
}

impl Default for ServerConfig {
    fn default() -> (r: ServerConfig)
        ensures
            r.app_name@ == DEFAULT_APP_NAME@,
            r.host@ == DEFAULT_HOST@,
            r.port == DEFAULT_PORT,
            r.max_body_size == DEFAULT_MAX_BODY_SIZE,
            r.session_timeout == DEFAULT_SESSION_TIMEOUT,
    {
        ServerConfig {
            app_name: DEFAULT_APP_NAME.to_owned(),
            host: DEFAULT_HOST.to_owned(),
            port: DEFAULT_PORT,
            max_body_size: DEFAULT_MAX_BODY_SIZE,
            session_timeout: DEFAULT_SESSION_TIMEOUT,
        }
    }
}

} // verus!
