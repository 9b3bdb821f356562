use vstd::prelude::*;

use crate::text::{parse_u16, parsed_u16};

verus! {

/// A configuration variable that the coordinator or a worker reads.
#[derive(Clone, Copy, Debug, PartialEq, Eq, Structural)]
pub enum ConfigVariable {
    MapperResourcesDir,
    MapperOutputDir,
    CoordinatorPort,
    WorkerId,
}

impl ConfigVariable {
    /// The name of the environment variable.
    pub fn name(&self) -> (name: &'static str)
        ensures
            name@ == match self {
                ConfigVariable::MapperResourcesDir => "MAPPER_RESOURCES_DIR"@,
                ConfigVariable::MapperOutputDir => "MAPPER_OUTPUT_DIR"@,
                ConfigVariable::CoordinatorPort => "COORDINATOR_PORT"@,
                ConfigVariable::WorkerId => "WORKER_ID"@,
            },
    {
        match self {
            ConfigVariable::MapperResourcesDir => "MAPPER_RESOURCES_DIR",
            ConfigVariable::MapperOutputDir => "MAPPER_OUTPUT_DIR",
            ConfigVariable::CoordinatorPort => "COORDINATOR_PORT",
            ConfigVariable::WorkerId => "WORKER_ID",
        }
    }
}

/// Why a configuration could not be built.
#[derive(Clone, Copy, Debug, PartialEq, Eq, Structural)]
pub enum ConfigError {
    /// A required variable is not set.
    Missing(ConfigVariable),
    /// The port is not a number from 0 to 65535.
    InvalidPort,
}

/// The coordinator's configuration: where the input files of the map tasks
/// are, where their output goes, and the port it serves on (on the IPv6
/// loopback address).
pub struct Config {
    pub mapper_resources_dir: String,
    pub mapper_output_dir: String,
    pub port: u16,
}

impl Config {
    /// Builds the configuration from the values of `MAPPER_RESOURCES_DIR`,
    /// `MAPPER_OUTPUT_DIR` and `COORDINATOR_PORT` (`None` where unset),
    /// checked in that order.
    pub fn from_values(
        mapper_resources_dir: Option<String>,
        mapper_output_dir: Option<String>,
        coordinator_port: Option<String>,
    ) -> (config: Result<Config, ConfigError>)
        ensures
            mapper_resources_dir is None ==> config == Err::<Config, ConfigError>(ConfigError::Missing(ConfigVariable::MapperResourcesDir)),
            mapper_resources_dir is Some && mapper_output_dir is None
                ==> config == Err::<Config, ConfigError>(ConfigError::Missing(ConfigVariable::MapperOutputDir)),
            mapper_resources_dir is Some && mapper_output_dir is Some && coordinator_port is None
                ==> config == Err::<Config, ConfigError>(ConfigError::Missing(ConfigVariable::CoordinatorPort)),
            mapper_resources_dir is Some && mapper_output_dir is Some && coordinator_port is Some
                && parsed_u16(coordinator_port->0@) is None ==> config == Err::<Config, ConfigError>(ConfigError::InvalidPort),
            mapper_resources_dir is Some && mapper_output_dir is Some && coordinator_port is Some
                && parsed_u16(coordinator_port->0@) is Some ==> (config matches Ok(c)
                && c.mapper_resources_dir@ == mapper_resources_dir->0@
                && c.mapper_output_dir@ == mapper_output_dir->0@
                && Some(c.port) == parsed_u16(coordinator_port->0@)),
    {
        let mapper_resources_dir = match mapper_resources_dir {
            Some(dir) => dir,
            None => return Err(ConfigError::Missing(ConfigVariable::MapperResourcesDir)),
        };
        let mapper_output_dir = match mapper_output_dir {
            Some(dir) => dir,
            None => return Err(ConfigError::Missing(ConfigVariable::MapperOutputDir)),
        };
        let coordinator_port = match coordinator_port {
            Some(port) => port,
            None => return Err(ConfigError::Missing(ConfigVariable::CoordinatorPort)),
        };
        let port = match parse_u16(coordinator_port.as_str()) {
            Some(port) => port,
            None => return Err(ConfigError::InvalidPort),
        };
        Ok(Config { mapper_resources_dir, mapper_output_dir, port })
    }
}

} // verus!
