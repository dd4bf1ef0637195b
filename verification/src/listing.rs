//! Planning of a remote version-index request: URL building and
//! client configuration.  Fetching and decoding the index itself is
//! the application's work.

use vstd::prelude::*;

use crate::client::{create_client, ClientPlan, Proxy, ProxyPlan, spec_default_timeout_ms,
    spec_proxy_url};
use crate::errors::FetchError;
use crate::text::{spec_trim_slashes, trim_trailing_slashes};

verus! {

/// A request for the remote version index.
#[derive(Debug, Clone, Default)]
pub struct ListConfig {
    pub mirror: Option<String>,
    pub no_proxy: Option<bool>,
    pub proxy: Option<Proxy>,
    pub timeout_ms: Option<u64>,
}

/// The index URL under a mirror: the mirror with its trailing
/// slashes removed, then `/index.json`.
pub open spec fn spec_index_url(mirror: Seq<char>) -> Seq<char> {
    spec_trim_slashes(mirror) + "/index.json"@
}

/// Resolves a version-index request to its URL and client plan.
/// A missing mirror is rejected before any I/O.  The proxy rules
/// here honor the endpoint's `enabled` flag: a set `no_proxy` flag
/// wins, then an enabled explicit endpoint, then the system
/// settings.
pub fn resolve_list_request(config: &ListConfig) -> (r: Result<(String, ClientPlan), FetchError>)
    ensures
        match r {
            Ok((url, plan)) => config.mirror matches Some(m) && url@ == spec_index_url(m@)
                && plan.timeout_ms == match config.timeout_ms {
                Some(t) => t,
                None => spec_default_timeout_ms(),
            } && if config.no_proxy == Some(true) {
                plan.proxy is Direct
            } else {
                match config.proxy {
                    Some(p) => if p.enabled {
                        plan.proxy matches ProxyPlan::Explicit { url: u } && u@ == spec_proxy_url(
                            p.ip@,
                            p.port@,
                        )
                    } else {
                        plan.proxy is System
                    },
                    None => plan.proxy is System,
                }
            },
            Err(e) => e is MissingMirror && config.mirror is None,
        },
{
    proof {
        reveal_strlit("/index.json");
    }
    let mirror = match &config.mirror {
        Some(m) => m,
        None => {
            return Err(FetchError::MissingMirror);
        },
    };
    let mut url = trim_trailing_slashes(mirror.as_str()).to_owned();
    url.append("/index.json");
    let effective_proxy = match &config.proxy {
        Some(p) => if p.enabled {
            Some(Proxy { enabled: p.enabled, ip: p.ip.clone(), port: p.port.clone() })
        } else {
            None
        },
        None => None,
    };
    let plan = create_client(&effective_proxy, config.no_proxy, config.timeout_ms);
    proof {
        assert(url@ =~= spec_index_url(config.mirror->0@));
    }
    Ok((url, plan))
}

} // verus!
