//! Process and exchange configuration data, and the library entry point
//! that carries it.

use vstd::prelude::*;

verus! {

/// Logging verbosity.
#[derive(Debug, Clone, Copy, PartialEq, Eq, Structural)]
pub enum LogLevel {
    Debug,
    Info,
    Warn,
    Error,
}

/// Where collected data is kept.
#[derive(Debug, Clone, Copy, PartialEq, Eq, Structural)]
pub enum StorageType {
    Memory,
    Disk,
    TimescaleDB,
    ClickHouse,
}

/// Storage backend settings.
#[derive(Debug, Clone)]
pub struct StorageConfig {
    /// Which backend to use.
    pub storage_type: StorageType,
    /// Backend connection string.
    pub connection_string: String,
    /// Most connections held at once.
    pub max_connections: u32,
}

/// Core processing settings.
#[derive(Debug, Clone)]
pub struct Config {
    /// Logging verbosity.
    pub log_level: LogLevel,
    /// Storage backend settings.
    pub storage: StorageConfig,
    /// Request timeout in milliseconds.
    pub timeout_ms: u64,
    /// Most requests in flight at once.
    pub max_concurrent_requests: usize,
    /// How often a failed request is retried.
    pub retry_count: u8,
}

impl Default for Config {
    /// The default configuration: info logging, in-memory storage with no
    /// connection string and ten connections, a thirty-second timeout, a
    /// hundred concurrent requests, three retries.
    fn default() -> (r: Config)
        ensures
            r.log_level == LogLevel::Info,
            r.storage.storage_type == StorageType::Memory,
            r.storage.connection_string@ == Seq::<char>::empty(),
            r.storage.max_connections == 10,
            r.timeout_ms == 30000,
            r.max_concurrent_requests == 100,
            r.retry_count == 3,
    {
        Config {
            log_level: LogLevel::Info,
            storage: StorageConfig {
                storage_type: StorageType::Memory,
                connection_string: String::new(),
                max_connections: 10,
            },
            timeout_ms: 30000,
            max_concurrent_requests: 100,
            retry_count: 3,
        }
    }
}

/// The library's entry point: carries the configuration it was started
/// with.
#[derive(Debug)]
pub struct CryptoLytica {
    config: Config,
}

impl CryptoLytica {
    /// The carried configuration.
    pub closed spec fn spec_config(&self) -> Config {
        self.config
    }

    /// Starts with the given configuration.
    pub fn new(config: Config) -> (r: CryptoLytica)
        ensures
            r.spec_config() == config,
    {
        CryptoLytica { config }
    }

    /// Starts with the default configuration.
    pub fn default() -> (r: CryptoLytica)
        ensures
            r.spec_config().log_level == LogLevel::Info,
            r.spec_config().storage.storage_type == StorageType::Memory,
            r.spec_config().storage.connection_string@ == Seq::<char>::empty(),
            r.spec_config().storage.max_connections == 10,
            r.spec_config().timeout_ms == 30000,
            r.spec_config().max_concurrent_requests == 100,
            r.spec_config().retry_count == 3,
    {
        CryptoLytica { config: Config::default() }
    }

    /// The library's version.
    pub fn version(&self) -> (r: &'static str)
        ensures
            r@ == crate::spec_version(),
    {
        crate::version()
    }

    /// Reads the configuration.
    pub fn config(&self) -> (r: &Config)
        ensures
            *r == self.spec_config(),
    {
        &self.config
    }
}

/// Builds data collectors for exchanges. The library bundles no collector
/// integration of its own — collectors live with the embedding process —
/// so the supported list is empty here.
#[derive(Debug)]
pub struct CollectorFactory;

impl CollectorFactory {
    /// The exchanges a bundled collector exists for: none in the library
    /// itself.
    pub fn supported_exchanges() -> (r: Vec<&'static str>)
        ensures
            r@ == Seq::<&'static str>::empty(),
    {
        let r: Vec<&'static str> = Vec::new();
        r
    }
}

/// HTTP client settings of the exchange domain.
#[derive(Debug, Clone)]
pub struct HttpConfig {
    /// Request timeout in milliseconds.
    pub timeout_ms: u64,
    /// Connection timeout in milliseconds.
    pub connect_timeout_ms: u64,
    /// Most connections held at once.
    pub max_connections: usize,
    /// The User-Agent header sent with requests.
    pub user_agent: String,
    /// How often a failed request is retried.
    pub retry_count: u32,
    /// Delay between retries in milliseconds.
    pub retry_delay_ms: u64,
}

/// Cache settings of the exchange domain.
#[derive(Debug, Clone, Copy, PartialEq, Eq, Structural)]
pub struct CacheConfig {
    /// Whether caching is on.
    pub enabled: bool,
    /// Default time to live, in seconds.
    pub default_ttl_seconds: u64,
    /// Most entries held at once.
    pub max_capacity: usize,
}

/// Rate limiting settings of the exchange domain.
#[derive(Debug, Clone, Copy, PartialEq, Eq, Structural)]
pub struct RateLimitConfig {
    /// Whether rate limiting is on.
    pub enabled: bool,
    /// Most requests per second across all exchanges.
    pub global_requests_per_second: u32,
    /// Whether short bursts above the limit are tolerated.
    pub allow_burst: bool,
}

/// Credentials for one exchange's API.
#[derive(Debug, Clone)]
pub struct ExchangeCredentials {
    /// The API key.
    pub api_key: String,
    /// The API secret.
    pub api_secret: String,
    /// Extra authentication parameters some exchanges need, as key-value
    /// pairs.
    pub extra_params: Option<Vec<(String, String)>>,
}

} // verus!
