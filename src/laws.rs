use vstd::prelude::*;

use crate::agent::{agent_enabled_spec, AgentState, BuildlessAgentConfig};
use crate::backend::{chosen_transport, target_url, BackendPlan};
use crate::constants::{
    decimal, BUILDLESS_GLOBAL, BUILDLESS_LOCAL_PORT_CONTROL, BUILDLESS_LOCAL_PORT_HTTP,
};
use crate::resolve::{agent_port_of, global_port, is_key_value, port_of, scheme_of, BuildlessTransport};

verus! {

/// An endpoint given by the caller is the target as it stands, whatever the
/// agent reports and whatever the transport.
pub proof fn lemma_explicit_endpoint_wins(
    t: BuildlessTransport,
    endpoint: Seq<char>,
    agent_port: Option<u16>,
    info: Seq<char>,
)
    ensures
        target_url(t, Some(endpoint), agent_port, info) == endpoint,
{
}

/// Where a rendezvous file is missing, the agent's configuration plays no part:
/// the target is the global service, on the transport's global port.
pub proof fn lemma_missing_agent_files_use_global(
    use_agent: Option<bool>,
    instance_exists: bool,
    config_exists: bool,
    config: Option<BuildlessAgentConfig>,
    t: BuildlessTransport,
    info: Seq<char>,
)
    requires
        !instance_exists || !config_exists,
    ensures
        agent_port_of(agent_enabled_spec(use_agent, instance_exists, config_exists), config) is None,
        target_url(
            t,
            None,
            agent_port_of(agent_enabled_spec(use_agent, instance_exists, config_exists), config),
            info,
        ) == scheme_of(t, false) + "://"@ + info + BUILDLESS_GLOBAL@ + ":"@ + decimal(
            global_port(t) as nat,
        ),
{
}

/// With an API key, the key-value transport and the agent turned off, the
/// connection string is `rediss://apikey:<key>@global.less.build:6379`.
pub proof fn lemma_key_value_global_with_key(p: BackendPlan, apikey: String, agent: AgentState)
    requires
        p.planned(
            BuildlessTransport::RESP,
            None,
            Some(apikey),
            agent_port_of(
                agent_enabled_spec(Some(false), agent.instance_exists, agent.config_exists),
                agent.config,
            ),
        ),
    ensures
        p matches BackendPlan::KeyValue { url, .. } && url@ == "rediss://apikey:"@ + apikey@
            + "@global.less.build:6379"@,
{
    reveal_strlit("rediss://apikey:");
    reveal_strlit("@global.less.build:6379");
    reveal_strlit("rediss");
    reveal_strlit("apikey");
    reveal_strlit("global.less.build");
    reveal_strlit("://");
    reveal_strlit(":");
    reveal_strlit("@");
    reveal_with_fuel(decimal, 5);
    if let BackendPlan::KeyValue { url, .. } = p {
        assert(url@ =~= "rediss://apikey:"@ + apikey@ + "@global.less.build:6379"@);
    }
}

/// Without an API key, with the key-value transport and a usable agent that
/// reports a data port `P` other than the control port, the connection string
/// is `redis://local.less.build:<P>`.
pub proof fn lemma_key_value_agent_without_key(
    p: BackendPlan,
    use_agent: Option<bool>,
    agent: AgentState,
    config: BuildlessAgentConfig,
)
    requires
        agent_enabled_spec(use_agent, agent.instance_exists, agent.config_exists),
        agent.config == Some(config),
        config.port != BUILDLESS_LOCAL_PORT_CONTROL,
        p.planned(
            BuildlessTransport::RESP,
            None,
            None,
            agent_port_of(
                agent_enabled_spec(use_agent, agent.instance_exists, agent.config_exists),
                agent.config,
            ),
        ),
    ensures
        p matches BackendPlan::KeyValue { url, .. } && url@ == "redis://local.less.build:"@
            + decimal(config.port as nat),
{
    reveal_strlit("redis://local.less.build:");
    reveal_strlit("redis");
    reveal_strlit("local.less.build");
    reveal_strlit("://");
    reveal_strlit(":");
    if let BackendPlan::KeyValue { url, .. } = p {
        assert(url@ =~= "redis://local.less.build:"@ + decimal(config.port as nat));
    }
}

/// An agent that reports the control port as its data port is reached on the
/// well-known local HTTP port instead, for the object store.
pub proof fn lemma_control_port_replaced(t: BuildlessTransport, info: Seq<char>)
    requires
        !is_key_value(t),
    ensures
        port_of(t, Some(BUILDLESS_LOCAL_PORT_CONTROL)) == BUILDLESS_LOCAL_PORT_HTTP,
        target_url(t, None, Some(BUILDLESS_LOCAL_PORT_CONTROL), info) == "http://"@ + info
            + "local.less.build:42011"@,
{
    reveal_strlit("http://");
    reveal_strlit("local.less.build:42011");
    reveal_strlit("http");
    reveal_strlit("local.less.build");
    reveal_strlit("://");
    reveal_strlit(":");
    reveal_with_fuel(decimal, 6);
    assert(target_url(t, None, Some(BUILDLESS_LOCAL_PORT_CONTROL), info) =~= "http://"@ + info
        + "local.less.build:42011"@);
}

/// Planning is a function of its inputs: two plans for the same inputs hold
/// the same endpoints and credentials.
pub proof fn lemma_plan_deterministic(
    p1: BackendPlan,
    p2: BackendPlan,
    use_agent: Option<bool>,
    transport: Option<BuildlessTransport>,
    endpoint: Option<String>,
    apikey: Option<String>,
    agent: AgentState,
)
    requires
        p1.planned(
            chosen_transport(transport),
            endpoint,
            apikey,
            agent_port_of(
                agent_enabled_spec(use_agent, agent.instance_exists, agent.config_exists),
                agent.config,
            ),
        ),
        p2.planned(
            chosen_transport(transport),
            endpoint,
            apikey,
            agent_port_of(
                agent_enabled_spec(use_agent, agent.instance_exists, agent.config_exists),
                agent.config,
            ),
        ),
    ensures
        p1@ == p2@,
{
}

} // verus!
