//! Process configuration, threaded through construction.
//!
//! The configuration is loaded once at startup and then passed by value or
//! reference to whoever needs it; there is no hidden global. [`get`]
//! recovers the configuration from the optional slot the host keeps, and
//! reports the one error this layer knows: nothing was loaded.

use vstd::prelude::*;
use vstd::string::StringExecFns;

verus! {

/// The command-line arguments the process accepts: where to find the
/// configuration file.
#[derive(Debug, PartialEq)]
pub struct CliArgs {
    pub config_path: String,
}

impl Default for CliArgs {
    /// The arguments with the configuration path at its default location.
    fn default() -> (args: CliArgs)
        ensures
            args.config_path@ == "settings/config.yaml"@,
    {
        CliArgs { config_path: String::from_str("settings/config.yaml") }
    }
}

/// How to reach the database backing identity resolution.
#[derive(Debug, PartialEq)]
pub struct PostgresConfig {
    pub max_connections: u32,
    pub postgres_url: String,
}

/// Where the server listens and under which root path it serves.
#[derive(Debug, PartialEq)]
pub struct ServerConfig {
    pub host: String,
    pub port: u32,
    pub root: String,
}

/// The key and certificate files terminating TLS.
#[derive(Debug, PartialEq)]
pub struct SslConfig {
    pub key_file: String,
    pub cert_file: String,
}

/// The whole process configuration.
#[derive(Debug, PartialEq)]
pub struct Config {
    pub db: PostgresConfig,
    pub server: ServerConfig,
    pub ssl: SslConfig,
}

/// The one configuration error: asking for the configuration before any
/// was loaded.
#[derive(Clone, Copy, Debug, PartialEq, Eq, Structural)]
pub enum ConfigError {
    NotLoaded,
}

impl ConfigError {
    /// A human-readable description of the error.
    pub fn message(&self) -> (message: String)
        ensures
            message@ == "no configuration loaded"@,
    {
        String::from_str("no configuration loaded")
    }
}

/// The loaded configuration, or [`ConfigError::NotLoaded`] when the slot is
/// still empty: `Ok` exactly when a configuration was loaded, and then the
/// very value that was loaded.
pub fn get(loaded: Option<Config>) -> (config: Result<Config, ConfigError>)
    ensures
        config == (match loaded {
            Some(value) => Result::<Config, ConfigError>::Ok(value),
            None => Result::<Config, ConfigError>::Err(ConfigError::NotLoaded),
        }),
{
    match loaded {
        Some(value) => Ok(value),
        None => Err(ConfigError::NotLoaded),
    }
}

} // verus!
