//! What the service decides at startup: whether its configuration allows a
//! pool to be opened, and with which settings.

use vstd::prelude::*;
use crate::config::{Config, ConfigField, first_missing, is_complete, url_of};

verus! {

/// Upper bound on the connections that the pool holds at once.
pub const MAX_CONNECTIONS: u32 = 5;

/// Seconds that a caller waits for a connection before giving up.
pub const ACQUIRE_TIMEOUT_SECS: u64 = 5;

/// Text logged when a required setting is empty.
pub const INCOMPLETE_CONFIG_MESSAGE: &'static str = "Not all values in `config.toml` are filled in!";

/// Prefix of the text logged when the pool cannot be opened.
pub const POOL_ERROR_PREFIX: &'static str = "Pool error: ";

/// The pool that startup asks the database driver to open.
pub struct PoolRequest {
    pub url: String,
    pub max_connections: u32,
    pub acquire_timeout_secs: u64,
}

/// Why the service cannot start; either one ends the process.
pub enum StartupError {
    /// A required setting is empty (the first such one).
    MissingField(ConfigField),
    /// The driver could not open the pool; the driver's message.
    Connection(String),
}

impl StartupError {
    /// The line logged before the process ends.
    pub fn message(&self) -> (r: String)
        ensures
            match self {
                StartupError::MissingField(_) => r@ == INCOMPLETE_CONFIG_MESSAGE@,
                StartupError::Connection(m) => r@ == POOL_ERROR_PREFIX@ + m@,
            },
    {
        match self {
            StartupError::MissingField(_) => String::from_str(INCOMPLETE_CONFIG_MESSAGE),
            StartupError::Connection(m) => {
                let mut line = String::from_str(POOL_ERROR_PREFIX);
                line.append(m.as_str());
                line
            },
        }
    }
}

/// Checks the configuration and, when every required setting is filled in,
/// says which pool to open: the configuration's MySQL address, at most
/// `MAX_CONNECTIONS` connections, `ACQUIRE_TIMEOUT_SECS` seconds to acquire one.
pub fn plan_pool(cfg: &Config) -> (r: Result<PoolRequest, StartupError>)
    ensures
        r is Ok <==> is_complete(cfg),
        cfg.password@.len() == 0 ==> r is Err,
        r matches Ok(p) ==> {
            &&& p.url@ == url_of(cfg)
            &&& p.max_connections == MAX_CONNECTIONS
            &&& p.acquire_timeout_secs == ACQUIRE_TIMEOUT_SECS
        },
        r matches Err(e) ==> (e matches StartupError::MissingField(f) && first_missing(cfg)
            == Some(f)),
{
    match cfg.missing_field() {
        Some(f) => Err(StartupError::MissingField(f)),
        None => Ok(
            PoolRequest {
                url: cfg.database_url(),
                max_connections: MAX_CONNECTIONS,
                acquire_timeout_secs: ACQUIRE_TIMEOUT_SECS,
            },
        ),
    }
}

} // verus!
