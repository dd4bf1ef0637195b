//! The HTTP client factory: decides proxy routing and the request
//! timeout for one fetch.  The decision is pure; the surrounding
//! application materializes it as a configured client.

use vstd::prelude::*;

verus! {

/// An explicit proxy endpoint, as kept in the settings store.
#[derive(Debug, Clone, Default)]
pub struct Proxy {
    pub enabled: bool,
    pub ip: String,
    pub port: String,
}

/// How the client routes its requests.
#[derive(Debug, Clone, PartialEq, Eq)]
pub enum ProxyPlan {
    /// All proxying disabled: connect directly.
    Direct,
    /// Proxying disabled by default, then routed through the given
    /// URL for every scheme.
    Explicit { url: String },
    /// Inherit the system and environment proxy settings.
    System,
}

/// The configuration of the HTTP client for one request.
#[derive(Debug, Clone, PartialEq, Eq)]
pub struct ClientPlan {
    pub proxy: ProxyPlan,
    pub timeout_ms: u64,
}

/// The request timeout applied when the caller sets none.
pub open spec fn spec_default_timeout_ms() -> u64 {
    20000
}

/// The proxy URL built from an explicit endpoint:
/// `http://{ip}:{port}`.
pub open spec fn spec_proxy_url(ip: Seq<char>, port: Seq<char>) -> Seq<char> {
    "http://"@ + ip + ":"@ + port
}

/// Builds the proxy URL for an explicit endpoint.
pub fn proxy_url(proxy: &Proxy) -> (r: String)
    ensures
        r@ == spec_proxy_url(proxy.ip@, proxy.port@),
{
    proof {
        reveal_strlit("http://");
        reveal_strlit(":");
    }
    let mut s = "http://".to_owned();
    s.append(proxy.ip.as_str());
    s.append(":");
    s.append(proxy.port.as_str());
    proof {
        assert(s@ =~= spec_proxy_url(proxy.ip@, proxy.port@));
    }
    s
}

/// Decides the client configuration, in priority order: a set
/// `no_proxy` flag disables all proxying; otherwise an explicit
/// proxy endpoint is routed for every scheme; otherwise the system
/// settings are inherited.  The timeout defaults to twenty seconds.
pub fn create_client(proxy: &Option<Proxy>, no_proxy: Option<bool>, timeout_ms: Option<u64>) -> (r:
    ClientPlan)
    ensures
        r.timeout_ms == match timeout_ms {
            Some(t) => t,
            None => spec_default_timeout_ms(),
        },
        no_proxy == Some(true) ==> r.proxy is Direct,
        no_proxy != Some(true) ==> match *proxy {
            Some(p) => r.proxy matches ProxyPlan::Explicit { url } && url@ == spec_proxy_url(
                p.ip@,
                p.port@,
            ),
            None => r.proxy is System,
        },
{
    let timeout = match timeout_ms {
        Some(t) => t,
        None => 20000,
    };
    let plan = if matches!(no_proxy, Some(true)) {
        ProxyPlan::Direct
    } else {
        match proxy {
            Some(p) => ProxyPlan::Explicit { url: proxy_url(p) },
            None => ProxyPlan::System,
        }
    };
    ClientPlan { proxy: plan, timeout_ms: timeout }
}

} // verus!
