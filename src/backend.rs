use vstd::prelude::*;
use vstd::string::StringExecFns;

use opendal::layers::LoggingLayer;
use opendal::services::{Redis, Webdav};
use opendal::Operator;

use crate::agent::{agent_enabled, agent_enabled_spec, AgentState};
use crate::constants::{decimal, BUILDLESS_HTTP_PREFIX_GENERIC};
use crate::error::BuildlessError;
use crate::resolve::{
    agent_port_of, compose_credentials, host_of, opt_view, port_of, resolve, scheme_of,
    BuildlessTransport, Credentials, Target,
};

verus! {

/// A handle on a remote store.
#[verifier::external_type_specification]
#[verifier::external_body]
pub struct ExOperator(opendal::Operator);

/// Relies on opendal's `Webdav` builder and `Operator::new`: an operator on the
/// WebDAV server at `endpoint`, under `root`, with basic auth from `username`
/// and `password` (the builder leaves an empty one unset), behind a
/// `LoggingLayer`. The builder's error comes back where it rejects the endpoint.
#[verifier::external_body]
fn webdav_operator(endpoint: &str, root: &str, username: &str, password: &str) -> (r: Result<
    Operator,
    opendal::Error,
>) {
    let mut builder = Webdav::default();
    builder.endpoint(endpoint);
    builder.root(root);
    builder.username(username);
    builder.password(password);
    Ok(Operator::new(builder)?.layer(LoggingLayer::default()).finish())
}

/// Whether opendal's `Redis` builder accepts the connection string `url`: it
/// parses the URL and checks its scheme; nothing else it is given can fail.
pub uninterp spec fn redis_url_accepted(url: Seq<char>) -> bool;

/// Relies on opendal's `Redis` builder and `Operator::new`: an operator on the
/// key-value server at the connection string `url`, authenticated with
/// `username` and `password` (the builder leaves an empty one unset), behind a
/// `LoggingLayer`. Whether it succeeds depends on `url` alone: the builder
/// parses it and checks its scheme, and `redis::Client::open` on the parsed
/// connection info does not fail.
#[verifier::external_body]
fn redis_operator(url: &str, username: &str, password: &str) -> (r: Result<
    Operator,
    opendal::Error,
>)
    ensures
        r is Ok <==> redis_url_accepted(url@),
{
    let mut builder = Redis::default();
    builder.endpoint(url);
    builder.username(username);
    builder.password(password);
    Ok(Operator::new(builder)?.layer(LoggingLayer::default()).finish())
}

/// The transport asked for, `AUTO` by default.
pub open spec fn chosen_transport(t: Option<BuildlessTransport>) -> BuildlessTransport {
    match t {
        Some(t) => t,
        None => BuildlessTransport::AUTO,
    }
}

/// `user:key@` for an API key; nothing without one.
pub open spec fn userinfo(apikey: Option<Seq<char>>) -> Seq<char> {
    match apikey {
        Some(k) => crate::constants::BUILDLESS_HTTP_APIKEY_USERNAME@ + ":"@ + k + "@"@,
        None => Seq::empty(),
    }
}

/// The URL of the cache for transport `t`: the caller's `explicit` endpoint
/// verbatim, else `scheme://[userinfo]host:port` of the resolved target, with
/// `userinfo` the authority prefix from an API key, if any.
pub open spec fn target_url(
    t: BuildlessTransport,
    explicit: Option<Seq<char>>,
    agent_port: Option<u16>,
    userinfo: Seq<char>,
) -> Seq<char> {
    match explicit {
        Some(e) => e,
        None => scheme_of(t, agent_port is Some) + "://"@ + userinfo + host_of(agent_port is Some)
            + ":"@ + decimal(port_of(t, agent_port) as nat),
    }
}

/// What a backend is built from.
#[derive(Clone, Debug, PartialEq, Eq)]
pub enum BackendPlan {
    /// An HTTP object store at `endpoint`, keeping entries under `root`.
    ObjectStore { endpoint: String, root: String, credentials: Credentials },
    /// A key-value store at the connection string `url`.
    KeyValue { url: String, credentials: Credentials },
}

/// The text of a plan, as a value.
pub enum BackendPlanView {
    ObjectStore {
        endpoint: Seq<char>,
        root: Seq<char>,
        username: Option<Seq<char>>,
        secret: Option<Seq<char>>,
    },
    KeyValue { url: Seq<char>, username: Option<Seq<char>>, secret: Option<Seq<char>> },
}

impl View for BackendPlan {
    type V = BackendPlanView;

    open spec fn view(&self) -> BackendPlanView {
        match self {
            BackendPlan::ObjectStore { endpoint, root, credentials } => BackendPlanView::ObjectStore {
                endpoint: endpoint@,
                root: root@,
                username: opt_view(credentials.username),
                secret: opt_view(credentials.secret),
            },
            BackendPlan::KeyValue { url, credentials } => BackendPlanView::KeyValue {
                url: url@,
                username: opt_view(credentials.username),
                secret: opt_view(credentials.secret),
            },
        }
    }
}

/// The credentials that go with `apikey`.
pub open spec fn credentials_for(c: Credentials, apikey: Option<String>) -> bool {
    &&& opt_view(c.secret) == opt_view(apikey)
    &&& opt_view(c.username) == (match apikey {
        Some(_) => Some(crate::constants::BUILDLESS_HTTP_APIKEY_USERNAME@),
        None => None,
    })
}

impl BackendPlan {
    /// Whether this is the plan for the transport `t` (not the native CI one),
    /// the caller's `endpoint` and `apikey`, and the agent's reported port
    /// `agent_port` (`None`: no agent to use).
    pub open spec fn planned(
        self,
        t: BuildlessTransport,
        endpoint: Option<String>,
        apikey: Option<String>,
        agent_port: Option<u16>,
    ) -> bool {
        if t == BuildlessTransport::RESP {
            self matches BackendPlan::KeyValue { url, credentials }
                && url@ == target_url(t, opt_view(endpoint), agent_port, userinfo(opt_view(apikey)))
                && credentials_for(credentials, apikey)
        } else {
            self matches BackendPlan::ObjectStore { endpoint: e, root, credentials }
                && e@ == target_url(t, opt_view(endpoint), agent_port, Seq::empty())
                && root@ == BUILDLESS_HTTP_PREFIX_GENERIC@
                && credentials_for(credentials, apikey)
        }
    }
}

/// `scheme://` followed by `userinfo` and `host:port` of a resolved target,
/// or the caller's endpoint as it stands.
fn target_url_string(target: &Target, userinfo: &str) -> (r: String)
    ensures
        r@ == (match target {
            Target::Explicit(e) => e@,
            Target::Located(ep) => ep.scheme@ + "://"@ + userinfo@ + ep.authority(),
        }),
{
    match target {
        Target::Explicit(e) => e.clone(),
        Target::Located(ep) => {
            let mut r = ep.scheme.clone();
            r.append("://");
            r.append(userinfo);
            let authority = ep.authority_string();
            r.append(authority.as_str());
            r
        },
    }
}

/// `user:key@` for an API key; empty without one.
fn userinfo_string(apikey: &Option<String>) -> (r: String)
    ensures
        r@ == userinfo(opt_view(*apikey)),
{
    match apikey {
        Some(k) => {
            let mut r = String::from_str(crate::constants::BUILDLESS_HTTP_APIKEY_USERNAME);
            r.append(":");
            r.append(k.as_str());
            r.append("@");
            r
        },
        None => String::new(),
    }
}

/// The text of an optional string, empty where there is none.
fn or_empty(s: &Option<String>) -> (r: &str)
    ensures
        r@ == (match s {
            Some(v) => v@,
            None => Seq::empty(),
        }),
{
    match s {
        Some(v) => v.as_str(),
        None => {
            proof {
                reveal_strlit("");
            }
            ""
        },
    }
}

/// Entry point: sets up the cache backend that the process should use.
pub struct BuildlessCache;

impl BuildlessCache {
    /// Decides the backend: the transport (`AUTO` by default, which is the
    /// object store), its target (the caller's `endpoint`, else the local agent
    /// where `use_agent` (default true) allows it, both rendezvous files exist
    /// and its configuration was read, else the global service) and the
    /// credentials from `apikey`. The agent's configuration is not consulted
    /// where the agent is not usable. The native CI transport is refused.
    pub fn plan(
        use_agent: &Option<bool>,
        transport_opt: &Option<BuildlessTransport>,
        endpoint: &Option<String>,
        apikey: &Option<String>,
        agent: &AgentState,
    ) -> (r: Result<BackendPlan, BuildlessError>)
        ensures
            r is Err <==> chosen_transport(*transport_opt) == BuildlessTransport::GHA,
            r is Err ==> r matches Err(BuildlessError::UnsupportedTransport),
            r matches Ok(p) ==> p.planned(
                chosen_transport(*transport_opt),
                *endpoint,
                *apikey,
                agent_port_of(
                    agent_enabled_spec(*use_agent, agent.instance_exists, agent.config_exists),
                    agent.config,
                ),
            ),
    {
        let do_use_agent = agent_enabled(use_agent, agent.instance_exists, agent.config_exists);
        let transport = match transport_opt {
            Some(t) => *t,
            None => BuildlessTransport::AUTO,
        };
        let target = match resolve(transport, endpoint, do_use_agent, &agent.config) {
            Ok(t) => t,
            Err(e) => return Err(e),
        };
        let credentials = compose_credentials(apikey);
        let ghost agent_port = agent_port_of(do_use_agent, agent.config);
        proof {
            if let Target::Located(ep) = &target {
                assert forall|u: Seq<char>|
                    ep.scheme@ + "://"@ + u + ep.authority() =~= target_url(
                        transport,
                        opt_view(*endpoint),
                        agent_port,
                        u,
                    ) by {}
            }
        }
        if transport == BuildlessTransport::RESP {
            let info = userinfo_string(apikey);
            let url = target_url_string(&target, info.as_str());
            Ok(BackendPlan::KeyValue { url, credentials })
        } else {
            let url = target_url_string(&target, "");
            proof {
                assert(""@ =~= Seq::<char>::empty()) by {
                    reveal_strlit("");
                }
            }
            Ok(
                BackendPlan::ObjectStore {
                    endpoint: url,
                    root: String::from_str(BUILDLESS_HTTP_PREFIX_GENERIC),
                    credentials,
                },
            )
        }
    }

    /// Sets up the backend that `plan` decides on. Fails where the transport
    /// is unsupported or the storage operator refuses the configuration; for
    /// the key-value transport, exactly where the planned connection string
    /// is not accepted.
    pub fn build(
        use_agent: &Option<bool>,
        transport_opt: &Option<BuildlessTransport>,
        endpoint: &Option<String>,
        apikey: &Option<String>,
        agent: &AgentState,
    ) -> (r: Result<Operator, BuildlessError>)
        ensures
            r matches Err(BuildlessError::UnsupportedTransport) <==> chosen_transport(*transport_opt)
                == BuildlessTransport::GHA,
            !(r matches Err(BuildlessError::UnsupportedPlatform)),
            chosen_transport(*transport_opt) == BuildlessTransport::RESP ==> (r is Ok
                <==> redis_url_accepted(
                target_url(
                    BuildlessTransport::RESP,
                    opt_view(*endpoint),
                    agent_port_of(
                        agent_enabled_spec(*use_agent, agent.instance_exists, agent.config_exists),
                        agent.config,
                    ),
                    userinfo(opt_view(*apikey)),
                ),
            )),
    {
        let plan = match Self::plan(use_agent, transport_opt, endpoint, apikey, agent) {
            Ok(p) => p,
            Err(e) => return Err(e),
        };
        let built = match &plan {
            BackendPlan::ObjectStore { endpoint, root, credentials } => webdav_operator(
                endpoint.as_str(),
                root.as_str(),
                or_empty(&credentials.username),
                or_empty(&credentials.secret),
            ),
            BackendPlan::KeyValue { url, credentials } => redis_operator(
                url.as_str(),
                or_empty(&credentials.username),
                or_empty(&credentials.secret),
            ),
        };
        match built {
            Ok(op) => Ok(op),
            Err(e) => Err(BuildlessError::Backend(e)),
        }
    }
}

} // verus!
