//! The configuration from which the pooled HTTP clients are built.
use vstd::prelude::*;
use vstd::string::*;

verus! {

/// The version of this library.
pub const VERSION: &'static str = "0.1.0";

/// What every client built by this library announces itself as.
pub const USER_AGENT: &'static str = "rust-httpx-transport/0.1.0";

/// Configuration for the HTTP client. It is fixed once a client is built from
/// it.
#[derive(Debug, Clone)]
pub struct ClientConfig {
    /// Connect and request timeout, in seconds.
    pub timeout_secs: u64,
    /// Idle connections kept per host.
    pub pool_max_idle_per_host: usize,
    /// How long an idle connection is kept, in seconds.
    pub pool_idle_timeout_secs: u64,
    /// Retry attempts. Dispatch performs no retry, whatever this holds.
    pub retries_max_attempts: u32,
    /// The identifying string sent with each request.
    pub user_agent: String,
}

impl ClientConfig {
    /// Whether `self` holds the default settings.
    pub open spec fn is_default(&self) -> bool {
        &&& self.timeout_secs == 30
        &&& self.pool_max_idle_per_host == 64
        &&& self.pool_idle_timeout_secs == 90
        &&& self.retries_max_attempts == 3
        &&& self.user_agent@ == USER_AGENT@
    }
}

impl Default for ClientConfig {
    /// A timeout of 30 s, 64 idle connections per host kept for 90 s, three
    /// retry attempts and the library's user agent.
    fn default() -> (config: ClientConfig)
        ensures
            config.is_default(),
    {
        ClientConfig {
            timeout_secs: 30,
            pool_max_idle_per_host: 64,
            pool_idle_timeout_secs: 90,
            retries_max_attempts: 3,
            user_agent: String::from_str(USER_AGENT),
        }
    }
}

} // verus!
