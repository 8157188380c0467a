//! Process configuration as plain values.  The host process parses its
//! configuration file and hands the engine one [`Config`]; the engine never
//! reads ambient global state.

use vstd::prelude::*;

verus! {

/// Connection settings of the backing store.
#[derive(Debug)]
pub struct DatabaseConfig {
    pub url: String,
    pub max_connect: u32,
}

/// The static candidate list and locale.
#[derive(Debug)]
pub struct AppConfig {
    pub packages: Vec<String>,
    pub locale: String,
}

/// The remote service endpoint and pacing.
#[derive(Debug)]
pub struct ApiConfig {
    /// Base URL of the remote lookup service.
    pub api_url: String,
    /// Request timeout in seconds.
    pub timeout_seconds: u64,
    /// Seconds between two full synchronisation runs.
    pub interval_seconds: u64,
}

/// Where the query API of the host process listens.
#[derive(Debug)]
pub struct ServeConfig {
    pub url: String,
    pub port: u16,
}

/// Everything the engine is configured with.
#[derive(Debug)]
pub struct Config {
    pub database: DatabaseConfig,
    pub app: AppConfig,
    pub api: ApiConfig,
    pub serve: ServeConfig,
}

impl Config {
    /// The backing store's connection URL.
    pub fn database_url(&self) -> (r: &str)
        ensures
            r@ == self.database.url@,
    {
        self.database.url.as_str()
    }

    /// The backing store's connection pool size; it must cover the batch
    /// scheduler's full configured concurrency.
    pub fn db_max_connect(&self) -> (r: u32)
        ensures
            r == self.database.max_connect,
    {
        self.database.max_connect
    }

    /// The statically configured package names.
    pub fn packages(&self) -> (r: &Vec<String>)
        ensures
            r == &self.app.packages,
    {
        &self.app.packages
    }

    /// The locale sent with entity lookups.
    pub fn locale(&self) -> (r: &str)
        ensures
            r@ == self.app.locale@,
    {
        self.app.locale.as_str()
    }

    /// The remote service's base URL.
    pub fn api_url(&self) -> (r: &str)
        ensures
            r@ == self.api.api_url@,
    {
        self.api.api_url.as_str()
    }

    /// The remote request timeout in seconds.
    pub fn api_timeout_seconds(&self) -> (r: u64)
        ensures
            r == self.api.timeout_seconds,
    {
        self.api.timeout_seconds
    }

    /// Seconds between two full synchronisation runs.
    pub fn api_interval(&self) -> (r: u64)
        ensures
            r == self.api.interval_seconds,
    {
        self.api.interval_seconds
    }

    /// The query API's listen address.
    pub fn serve_url(&self) -> (r: &str)
        ensures
            r@ == self.serve.url@,
    {
        self.serve.url.as_str()
    }

    /// The query API's listen port.
    pub fn serve_port(&self) -> (r: u16)
        ensures
            r == self.serve.port,
    {
        self.serve.port
    }
}

} // verus!
