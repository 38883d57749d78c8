//! Resolution of the Buildless remote cache backend: which transport and
//! endpoint a build-cache client talks to, and with which credentials.

mod agent;
mod backend;
pub mod constants;
mod error;
pub mod laws;
mod resolve;

pub use agent::{
    agent_enabled, agent_paths, AgentPaths, AgentState, BuildlessAgentConfig,
    BuildlessAgentEndpoint, HostPlatform,
};
pub use backend::{BackendPlan, BackendPlanView, BuildlessCache};
pub use error::BuildlessError;
pub use resolve::{
    compose_credentials, resolve, validate_port, BuildlessTransport, Credentials,
    ResolvedEndpoint, Target,
};
