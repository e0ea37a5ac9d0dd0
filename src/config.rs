//! The configuration model and its defaults.
use vstd::prelude::*;

verus! {

/// The whole configuration.
#[derive(Debug, PartialEq, Clone)]
pub struct Config {
    /// Listen address for clients, `host:port`.
    pub bind: String,
    /// Sentinel group name.
    pub group_name: String,
    /// The Sentinels to ask, if any.
    pub sentinels: Option<Sentinels>,
    /// Logging.
    pub log: ConfigLog,
    /// Timeouts.
    pub timeout: ConfigTimeout,
    /// Workers.
    pub workers: ConfigWorker,
}

/// The Sentinels, tried in order.
#[derive(Debug, PartialEq, Clone)]
pub struct Sentinels {
    /// Their `host:port` addresses.
    pub address: Vec<String>,
    /// Milliseconds to wait between two Sentinels.
    pub check_freqency: u64,
}

/// Logging settings.
#[derive(Debug, PartialEq, Clone)]
pub struct ConfigLog {
    /// Path of the logger's own configuration.
    pub file: String,
    /// Whether to print the banner at startup.
    pub logo: bool,
}

/// Timeouts, in milliseconds.
#[derive(Debug, PartialEq, Clone)]
pub struct ConfigTimeout {
    /// Longest wait for the first primary at startup.
    pub sentinels: u64,
    /// Reserved.
    pub worker_idle_timeout: u64,
}

/// Worker settings.
#[derive(Debug, PartialEq, Clone)]
pub struct ConfigWorker {
    /// The pool's size.
    pub pool: ConfigWorkerPool,
}

/// Worker pool size.
#[derive(Debug, PartialEq, Clone)]
pub struct ConfigWorkerPool {
    /// Workers started.
    pub min: u8,
    /// Reserved.
    pub max: u8,
}

/// Default path of the logger's configuration.
pub fn default_file() -> (r: String)
    ensures
        r@ == "log4rs.yml"@,
{
    "log4rs.yml".to_owned()
}

/// The banner is printed by default.
pub fn default_logo() -> (r: bool)
    ensures
        r,
{
    true
}

/// Default wait between two Sentinels: one second.
pub fn default_sentinel_check_freqency_default() -> (r: u64)
    ensures
        r == 1000,
{
    1000
}

/// Default timeout: five seconds.
pub fn default_timeout() -> (r: u64)
    ensures
        r == 5000,
{
    5000
}

/// Default number of workers started.
pub fn default_pool_size_min() -> (r: u8)
    ensures
        r == 5,
{
    5
}

/// Default upper bound of the pool.
pub fn default_pool_size_max() -> (r: u8)
    ensures
        r == 10,
{
    10
}

impl ConfigLog {
    /// `log4rs.yml`, with the banner.
    pub fn default() -> (r: Self)
        ensures
            r.file@ == "log4rs.yml"@,
            r.logo,
    {
        ConfigLog { file: default_file(), logo: default_logo() }
    }
}

impl ConfigTimeout {
    /// Five seconds each.
    pub fn default() -> (r: Self)
        ensures
            r.sentinels == 5000,
            r.worker_idle_timeout == 5000,
    {
        ConfigTimeout { sentinels: default_timeout(), worker_idle_timeout: default_timeout() }
    }
}

impl ConfigWorker {
    /// The default pool.
    pub fn default() -> (r: Self)
        ensures
            r.pool.min == 5,
            r.pool.max == 10,
    {
        ConfigWorker { pool: ConfigWorkerPool::default() }
    }
}

impl ConfigWorkerPool {
    /// Five workers, at most ten.
    pub fn default() -> (r: Self)
        ensures
            r.min == 5,
            r.max == 10,
    {
        ConfigWorkerPool { min: default_pool_size_min(), max: default_pool_size_max() }
    }
}

} // verus!
