use vstd::prelude::*;
use vstd::string::StringExecFns;

verus! {

/// Host name of the caching agent on this machine.
pub const BUILDLESS_LOCAL: &'static str = "local.less.build";

/// Port of the agent's control channel; never used for cache traffic.
pub const BUILDLESS_LOCAL_PORT_CONTROL: u16 = 42010;

/// Port on which the agent serves the object-store (HTTP) protocol.
pub const BUILDLESS_LOCAL_PORT_HTTP: u16 = 42011;

/// Port on which the agent serves the key-value (RESP) protocol.
pub const BUILDLESS_LOCAL_PORT_RESP: u16 = 42012;

/// Host name of the global hosted cache service.
pub const BUILDLESS_GLOBAL: &'static str = "global.less.build";

/// Port of the global service's object-store endpoint.
pub const BUILDLESS_GLOBAL_PORT_HTTPS: u16 = 443;

/// Port of the global service's key-value endpoint.
pub const BUILDLESS_GLOBAL_PORT_RESP: u16 = 6379;

/// Root path under which the object store keeps cache entries.
pub const BUILDLESS_HTTP_PREFIX_GENERIC: &'static str = "/cache/generic";

/// User name that accompanies an API key.
pub const BUILDLESS_HTTP_APIKEY_USERNAME: &'static str = "apikey";

/// Scheme of the object store through the local agent.
pub const SCHEME_HTTP: &'static str = "http";

/// Scheme of the object store at the global service.
pub const SCHEME_HTTPS: &'static str = "https";

/// Scheme of the key-value store through the local agent.
pub const SCHEME_REDIS: &'static str = "redis";

/// Scheme of the key-value store at the global service (TLS).
pub const SCHEME_REDISS: &'static str = "rediss";

/// The character of a decimal digit.
pub open spec fn digit_char(d: nat) -> char {
    if d == 0 { '0' }
    else if d == 1 { '1' }
    else if d == 2 { '2' }
    else if d == 3 { '3' }
    else if d == 4 { '4' }
    else if d == 5 { '5' }
    else if d == 6 { '6' }
    else if d == 7 { '7' }
    else if d == 8 { '8' }
    else { '9' }
}

/// The decimal notation of `n`, without leading zeros.
pub open spec fn decimal(n: nat) -> Seq<char>
    decreases n,
{
    if n < 10 {
        seq![digit_char(n)]
    } else {
        decimal(n / 10).push(digit_char(n % 10))
    }
}

/// The one-character text of the decimal digit `d`.
fn digit_str(d: u16) -> (r: &'static str)
    requires
        d < 10,
    ensures
        r@ == seq![digit_char(d as nat)],
{
    proof {
        reveal_strlit("0");
        reveal_strlit("1");
        reveal_strlit("2");
        reveal_strlit("3");
        reveal_strlit("4");
        reveal_strlit("5");
        reveal_strlit("6");
        reveal_strlit("7");
        reveal_strlit("8");
        reveal_strlit("9");
    }
    if d == 0 { "0" }
    else if d == 1 { "1" }
    else if d == 2 { "2" }
    else if d == 3 { "3" }
    else if d == 4 { "4" }
    else if d == 5 { "5" }
    else if d == 6 { "6" }
    else if d == 7 { "7" }
    else if d == 8 { "8" }
    else { "9" }
}

/// The decimal notation of `port`.
pub fn port_to_string(port: u16) -> (r: String)
    ensures
        r@ == decimal(port as nat),
    decreases port,
{
    if port < 10 {
        String::from_str(digit_str(port))
    } else {
        let mut r = port_to_string(port / 10);
        r.append(digit_str(port % 10));
        r
    }
}

} // verus!
