use vstd::prelude::*;
use vstd::string::StringExecFns;

use crate::agent::BuildlessAgentConfig;
use crate::constants::{
    decimal, port_to_string, BUILDLESS_GLOBAL, BUILDLESS_GLOBAL_PORT_HTTPS,
    BUILDLESS_GLOBAL_PORT_RESP, BUILDLESS_HTTP_APIKEY_USERNAME, BUILDLESS_HTTP_PREFIX_GENERIC,
    BUILDLESS_LOCAL, BUILDLESS_LOCAL_PORT_CONTROL, BUILDLESS_LOCAL_PORT_HTTP,
    BUILDLESS_LOCAL_PORT_RESP, SCHEME_HTTP, SCHEME_HTTPS, SCHEME_REDIS, SCHEME_REDISS,
};
use crate::error::BuildlessError;

verus! {

/// The transport over which cache entries travel.
#[allow(non_camel_case_types)]
#[derive(Clone, Copy, Debug, PartialEq, Eq, Structural)]
pub enum BuildlessTransport {
    /// Chosen by the library; at present the object store.
    AUTO,
    /// HTTP object store.
    HTTPS,
    /// Redis-style key-value protocol.
    RESP,
    /// CI-platform-native transport; not supported.
    GHA,
}

/// The text of an optional string.
pub open spec fn opt_view(o: Option<String>) -> Option<Seq<char>> {
    match o {
        Some(s) => Some(s@),
        None => None,
    }
}

/// Whether `t` is the key-value transport (every other supported one is the
/// object store).
pub open spec fn is_key_value(t: BuildlessTransport) -> bool {
    t == BuildlessTransport::RESP
}

/// Whether `port` may carry cache traffic: every port but the control port.
pub fn validate_port(port: u16, transport: BuildlessTransport) -> (r: bool)
    ensures
        r == (port != BUILDLESS_LOCAL_PORT_CONTROL),
{
    port != BUILDLESS_LOCAL_PORT_CONTROL
}

/// The agent's well-known data port for transport `t`.
pub open spec fn local_data_port(t: BuildlessTransport) -> u16 {
    if is_key_value(t) {
        BUILDLESS_LOCAL_PORT_RESP
    } else {
        BUILDLESS_LOCAL_PORT_HTTP
    }
}

/// The global service's port for transport `t`.
pub open spec fn global_port(t: BuildlessTransport) -> u16 {
    if is_key_value(t) {
        BUILDLESS_GLOBAL_PORT_RESP
    } else {
        BUILDLESS_GLOBAL_PORT_HTTPS
    }
}

/// The data port used for an agent that reports `port`: that port, unless it
/// is the control port.
pub open spec fn agent_data_port(port: u16, t: BuildlessTransport) -> u16 {
    if port != BUILDLESS_LOCAL_PORT_CONTROL {
        port
    } else {
        local_data_port(t)
    }
}

/// The port the agent reports, where the agent is to be used.
pub open spec fn agent_port_of(use_agent: bool, agent: Option<BuildlessAgentConfig>) -> Option<u16> {
    match agent {
        Some(a) if use_agent => Some(a.port),
        _ => None,
    }
}

/// The URL scheme for transport `t`: plain through the agent, TLS to the
/// global service.
pub open spec fn scheme_of(t: BuildlessTransport, via_agent: bool) -> Seq<char> {
    if is_key_value(t) {
        if via_agent { SCHEME_REDIS@ } else { SCHEME_REDISS@ }
    } else {
        if via_agent { SCHEME_HTTP@ } else { SCHEME_HTTPS@ }
    }
}

/// The host: the agent's where it is used, else the global service's.
pub open spec fn host_of(via_agent: bool) -> Seq<char> {
    if via_agent { BUILDLESS_LOCAL@ } else { BUILDLESS_GLOBAL@ }
}

/// The port for transport `t`: the agent's data port where an agent reports
/// `agent_port`, else the global service's port.
pub open spec fn port_of(t: BuildlessTransport, agent_port: Option<u16>) -> u16 {
    match agent_port {
        Some(p) => agent_data_port(p, t),
        None => global_port(t),
    }
}

/// The root path of the store: the object store's prefix; none for the
/// key-value transport.
pub open spec fn prefix_of(t: BuildlessTransport) -> Seq<char> {
    if is_key_value(t) { Seq::empty() } else { BUILDLESS_HTTP_PREFIX_GENERIC@ }
}

/// A network target decided by the library rather than given by the caller.
#[derive(Clone, Debug, PartialEq, Eq)]
pub struct ResolvedEndpoint {
    pub scheme: String,
    pub host: String,
    pub port: u16,
    /// Root path of the store; empty for the key-value transport.
    pub path_prefix: String,
}

impl ResolvedEndpoint {
    /// Whether this is the target for transport `t` with the agent's reported
    /// port `agent_port` (`None`: no agent to use).
    pub open spec fn located(self, t: BuildlessTransport, agent_port: Option<u16>) -> bool {
        &&& self.scheme@ == scheme_of(t, agent_port is Some)
        &&& self.host@ == host_of(agent_port is Some)
        &&& self.port == port_of(t, agent_port)
        &&& self.path_prefix@ == prefix_of(t)
    }

    /// `host:port`.
    pub open spec fn authority(self) -> Seq<char> {
        self.host@ + ":"@ + decimal(self.port as nat)
    }

    /// `host:port`.
    pub fn authority_string(&self) -> (r: String)
        ensures
            r@ == self.authority(),
    {
        let mut r = self.host.clone();
        r.append(":");
        let port = port_to_string(self.port);
        r.append(port.as_str());
        r
    }
}

/// Where the cache is: as the caller wrote it, or as resolved.
#[derive(Clone, Debug, PartialEq, Eq)]
pub enum Target {
    Explicit(String),
    Located(ResolvedEndpoint),
}

impl Target {
    /// Whether this is the target for transport `t`, the caller's endpoint
    /// `explicit` and the agent's reported port `agent_port`.
    pub open spec fn resolved_for(
        self,
        t: BuildlessTransport,
        explicit: Option<Seq<char>>,
        agent_port: Option<u16>,
    ) -> bool {
        match explicit {
            Some(e) => self matches Target::Explicit(s) && s@ == e,
            None => self matches Target::Located(ep) && ep.located(t, agent_port),
        }
    }
}

/// Decides the target for `transport`: the caller's `endpoint` if given; else
/// the local agent, where `use_agent` holds and its configuration was read;
/// else the global service. The native CI transport is refused.
pub fn resolve(
    transport: BuildlessTransport,
    endpoint: &Option<String>,
    use_agent: bool,
    agent: &Option<BuildlessAgentConfig>,
) -> (r: Result<Target, BuildlessError>)
    ensures
        r is Err <==> transport == BuildlessTransport::GHA,
        r is Err ==> r matches Err(BuildlessError::UnsupportedTransport),
        r matches Ok(tg) ==> tg.resolved_for(transport, opt_view(*endpoint), agent_port_of(use_agent, *agent)),
{
    if transport == BuildlessTransport::GHA {
        return Err(BuildlessError::UnsupportedTransport);
    }
    let kv = transport == BuildlessTransport::RESP;
    match endpoint {
        Some(e) => Ok(Target::Explicit(e.clone())),
        None => {
            let (scheme, host, port) = match agent {
                Some(a) if use_agent => {
                    let port = if validate_port(a.port, transport) {
                        a.port
                    } else if kv {
                        BUILDLESS_LOCAL_PORT_RESP
                    } else {
                        BUILDLESS_LOCAL_PORT_HTTP
                    };
                    let scheme = if kv { SCHEME_REDIS } else { SCHEME_HTTP };
                    (scheme, BUILDLESS_LOCAL, port)
                },
                _ => {
                    if kv {
                        (SCHEME_REDISS, BUILDLESS_GLOBAL, BUILDLESS_GLOBAL_PORT_RESP)
                    } else {
                        (SCHEME_HTTPS, BUILDLESS_GLOBAL, BUILDLESS_GLOBAL_PORT_HTTPS)
                    }
                },
            };
            let path_prefix = if kv {
                String::new()
            } else {
                String::from_str(BUILDLESS_HTTP_PREFIX_GENERIC)
            };
            Ok(
                Target::Located(
                    ResolvedEndpoint {
                        scheme: String::from_str(scheme),
                        host: String::from_str(host),
                        port,
                        path_prefix,
                    },
                ),
            )
        },
    }
}

/// Credentials that go with an API key.
#[derive(Clone, Debug, PartialEq, Eq)]
pub struct Credentials {
    pub username: Option<String>,
    pub secret: Option<String>,
}

/// The credentials for `apikey`: the fixed user name and the key as secret, or
/// none without a key.
pub fn compose_credentials(apikey: &Option<String>) -> (r: Credentials)
    ensures
        opt_view(r.secret) == opt_view(*apikey),
        opt_view(r.username) == (match apikey {
            Some(_) => Some(BUILDLESS_HTTP_APIKEY_USERNAME@),
            None => None,
        }),
{
    match apikey {
        Some(k) => Credentials {
            username: Some(String::from_str(BUILDLESS_HTTP_APIKEY_USERNAME)),
            secret: Some(k.clone()),
        },
        None => Credentials { username: None, secret: None },
    }
}

} // verus!
