use vstd::prelude::*;

use crate::config::{ConfigError, ConfigVariable};
use crate::text::{decimal, parse_u16, parsed_u16, push_decimal};

verus! {

/// The worker's configuration: its id, the host name it registers with, and
/// the address of the coordinator.
pub struct Config {
    pub worker_id: String,
    pub hostname: String,
    pub coordinator_addr: String,
}

/// The host name a worker registers with when none is configured.
pub open spec fn default_hostname() -> Seq<char> {
    "worker.local"@
}

/// The coordinator's address for `port`, on the IPv6 loopback address.
pub open spec fn coordinator_address(port: u16) -> Seq<char> {
    "http://[::1]:"@ + decimal(port as nat)
}

impl Config {
    /// Builds the configuration from the values of `WORKER_ID`,
    /// `COORDINATOR_PORT` and `HOSTNAME` (`None` where unset), checked in
    /// that order; the host name defaults to `worker.local`.
    pub fn from_values(
        worker_id: Option<String>,
        coordinator_port: Option<String>,
        hostname: Option<String>,
    ) -> (config: Result<Config, ConfigError>)
        ensures
            worker_id is None ==> config == Err::<Config, ConfigError>(ConfigError::Missing(ConfigVariable::WorkerId)),
            worker_id is Some && coordinator_port is None
                ==> config == Err::<Config, ConfigError>(ConfigError::Missing(ConfigVariable::CoordinatorPort)),
            worker_id is Some && coordinator_port is Some && parsed_u16(coordinator_port->0@) is None
                ==> config == Err::<Config, ConfigError>(ConfigError::InvalidPort),
            worker_id is Some && coordinator_port is Some && parsed_u16(coordinator_port->0@) is Some
                ==> (config matches Ok(c)
                && c.worker_id@ == worker_id->0@
                && c.coordinator_addr@ == coordinator_address(parsed_u16(coordinator_port->0@)->0)
                && c.hostname@ == (match hostname {
                    Some(h) => h@,
                    None => default_hostname(),
                })),
    {
        let worker_id = match worker_id {
            Some(id) => id,
            None => return Err(ConfigError::Missing(ConfigVariable::WorkerId)),
        };
        let coordinator_port = match coordinator_port {
            Some(port) => port,
            None => return Err(ConfigError::Missing(ConfigVariable::CoordinatorPort)),
        };
        let port = match parse_u16(coordinator_port.as_str()) {
            Some(port) => port,
            None => return Err(ConfigError::InvalidPort),
        };
        let hostname = match hostname {
            Some(h) => h,
            None => "worker.local".to_owned(),
        };
        let mut coordinator_addr = "http://[::1]:".to_owned();
        push_decimal(&mut coordinator_addr, port);
        Ok(Config { worker_id, hostname, coordinator_addr })
    }
}

} // verus!
