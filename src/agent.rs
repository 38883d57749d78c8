use vstd::prelude::*;

use crate::error::BuildlessError;

verus! {

/// One interface that the local agent exposes.
#[derive(Clone, Debug, PartialEq, Eq)]
pub struct BuildlessAgentEndpoint {
    pub port: u16,
    pub socket: Option<String>,
}

/// What the local agent reports about itself in its rendezvous file.
#[derive(Clone, Debug, PartialEq, Eq)]
pub struct BuildlessAgentConfig {
    pub pid: u32,
    pub port: u16,
    pub socket: Option<String>,
    pub control: Option<BuildlessAgentEndpoint>,
}

/// The family of operating system the process runs on.
#[derive(Clone, Copy, Debug, PartialEq, Eq, Structural)]
pub enum HostPlatform {
    Windows,
    Unix,
    Other,
}

/// Where the agent's rendezvous files live.
#[derive(Clone, Debug, PartialEq, Eq)]
pub struct AgentPaths {
    /// The agent's JSON configuration.
    pub config: String,
    /// The marker whose existence says that an agent is installed.
    pub instance: String,
}

pub const WINDOWS_AGENT_CONFIG: &'static str = "C:\\ProgramData\\buildless\\buildless-agent.json";

pub const WINDOWS_AGENT_INSTANCE: &'static str = "C:\\ProgramData\\buildless\\buildless-service.id";

pub const UNIX_AGENT_CONFIG: &'static str = "/var/tmp/buildless/buildless-agent.json";

pub const UNIX_AGENT_INSTANCE: &'static str = "/var/tmp/buildless/buildless-service.id";

/// The rendezvous paths of `platform`; there are none on an unknown platform.
pub fn agent_paths(platform: HostPlatform) -> (r: Result<AgentPaths, BuildlessError>)
    ensures
        platform == HostPlatform::Windows ==> (r matches Ok(p) && p.config@ == WINDOWS_AGENT_CONFIG@
            && p.instance@ == WINDOWS_AGENT_INSTANCE@),
        platform == HostPlatform::Unix ==> (r matches Ok(p) && p.config@ == UNIX_AGENT_CONFIG@
            && p.instance@ == UNIX_AGENT_INSTANCE@),
        platform == HostPlatform::Other ==> r matches Err(BuildlessError::UnsupportedPlatform),
{
    match platform {
        HostPlatform::Windows => Ok(
            AgentPaths {
                config: String::from_str(WINDOWS_AGENT_CONFIG),
                instance: String::from_str(WINDOWS_AGENT_INSTANCE),
            },
        ),
        HostPlatform::Unix => Ok(
            AgentPaths {
                config: String::from_str(UNIX_AGENT_CONFIG),
                instance: String::from_str(UNIX_AGENT_INSTANCE),
            },
        ),
        HostPlatform::Other => Err(BuildlessError::UnsupportedPlatform),
    }
}

/// Whether the agent may be used: the caller allows it (the default) and both
/// rendezvous files exist.
pub open spec fn agent_enabled_spec(use_agent: Option<bool>, instance_exists: bool, config_exists: bool) -> bool {
    let allowed = match use_agent {
        Some(b) => b,
        None => true,
    };
    allowed && instance_exists && config_exists
}

/// Whether the local agent is usable; only then is its configuration read.
pub fn agent_enabled(use_agent: &Option<bool>, instance_exists: bool, config_exists: bool) -> (r: bool)
    ensures
        r == agent_enabled_spec(*use_agent, instance_exists, config_exists),
{
    let allowed = match use_agent {
        Some(b) => *b,
        None => true,
    };
    allowed && instance_exists && config_exists
}

/// What a probe of the rendezvous files found.
#[derive(Clone, Debug, PartialEq, Eq)]
pub struct AgentState {
    pub instance_exists: bool,
    pub config_exists: bool,
    /// The parsed configuration; `None` where it was not read, is missing or
    /// does not parse.
    pub config: Option<BuildlessAgentConfig>,
}

} // verus!
