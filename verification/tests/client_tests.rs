//! The client factory's proxy rules, the version parser, and the
//! index-request planner.

use nvmd::client::{create_client, proxy_url, Proxy, ProxyPlan};
use nvmd::errors::FetchError;
use nvmd::listing::{resolve_list_request, ListConfig};
use nvmd::version::{parse_version, NodeVersion};

fn proxy(ip: &str, port: &str) -> Proxy {
    Proxy {
        enabled: true,
        ip: ip.to_string(),
        port: port.to_string(),
    }
}

#[test]
fn no_proxy_flag_wins_over_explicit_proxy() {
    // An unreachable explicit proxy does not matter once no_proxy
    // is set: the client connects directly.
    let plan = create_client(&Some(proxy("10.0.0.1", "9999")), Some(true), None);
    assert_eq!(plan.proxy, ProxyPlan::Direct);
    assert_eq!(plan.timeout_ms, 20000);
}

#[test]
fn explicit_proxy_is_routed() {
    let plan = create_client(&Some(proxy("127.0.0.1", "7890")), None, Some(5000));
    assert_eq!(
        plan.proxy,
        ProxyPlan::Explicit {
            url: "http://127.0.0.1:7890".to_string()
        }
    );
    assert_eq!(plan.timeout_ms, 5000);
}

#[test]
fn without_any_setting_the_system_proxy_is_inherited() {
    let plan = create_client(&None, None, None);
    assert_eq!(plan.proxy, ProxyPlan::System);
}

#[test]
fn proxy_url_shape() {
    assert_eq!(proxy_url(&proxy("192.168.1.2", "8080")), "http://192.168.1.2:8080");
}

#[test]
fn parse_version_reads_the_triple() {
    assert_eq!(
        parse_version("20.2.3").unwrap(),
        NodeVersion {
            major: 20,
            minor: 2,
            patch: 3
        }
    );
    // Loose input still parses; the parser, not the caller, decides.
    assert_eq!(
        parse_version("v18.17.1").unwrap(),
        NodeVersion {
            major: 18,
            minor: 17,
            patch: 1
        }
    );
    assert!(matches!(
        parse_version("not-a-version"),
        Err(FetchError::InvalidVersion)
    ));
    assert!(matches!(parse_version(""), Err(FetchError::InvalidVersion)));
}

#[test]
fn version_text_is_canonical() {
    let v = NodeVersion {
        major: 18,
        minor: 0,
        patch: 0,
    };
    assert_eq!(v.text(), "18.0.0");
    let v = NodeVersion {
        major: 100,
        minor: 20,
        patch: 9,
    };
    assert_eq!(v.text(), "100.20.9");
}

#[test]
fn list_request_needs_a_mirror() {
    let config = ListConfig {
        mirror: None,
        no_proxy: None,
        proxy: None,
        timeout_ms: None,
    };
    assert!(matches!(
        resolve_list_request(&config),
        Err(FetchError::MissingMirror)
    ));
}

#[test]
fn list_request_trims_the_mirror() {
    let config = ListConfig {
        mirror: Some("https://nodejs.org/dist///".to_string()),
        no_proxy: None,
        proxy: None,
        timeout_ms: None,
    };
    let (url, plan) = resolve_list_request(&config).unwrap();
    assert_eq!(url, "https://nodejs.org/dist/index.json");
    assert_eq!(plan.proxy, ProxyPlan::System);
    assert_eq!(plan.timeout_ms, 20000);
}

#[test]
fn list_request_honors_the_enabled_flag() {
    let mut p = proxy("127.0.0.1", "7890");
    p.enabled = false;
    let config = ListConfig {
        mirror: Some("https://nodejs.org/dist".to_string()),
        no_proxy: None,
        proxy: Some(p),
        timeout_ms: None,
    };
    let (_, plan) = resolve_list_request(&config).unwrap();
    assert_eq!(plan.proxy, ProxyPlan::System);

    let config = ListConfig {
        mirror: Some("https://nodejs.org/dist".to_string()),
        no_proxy: None,
        proxy: Some(proxy("127.0.0.1", "7890")),
        timeout_ms: None,
    };
    let (_, plan) = resolve_list_request(&config).unwrap();
    assert_eq!(
        plan.proxy,
        ProxyPlan::Explicit {
            url: "http://127.0.0.1:7890".to_string()
        }
    );
}

#[test]
fn list_request_on_a_mirror_of_only_slashes() {
    let config = ListConfig {
        mirror: Some("///".to_string()),
        no_proxy: None,
        proxy: None,
        timeout_ms: None,
    };
    let (url, _) = resolve_list_request(&config).unwrap();
    assert_eq!(url, "/index.json");
}

#[test]
fn parse_version_caps_huge_components() {
    // The parser rejects numeric components beyond its bound, which
    // sits one decimal digit short of JavaScript's largest safe
    // integer.
    assert!(parse_version("99999999999999999999.0.0").is_err());
    assert!(parse_version("9007199254740991.0.0").is_err());
    assert_eq!(
        parse_version("900719925474099.0.0").unwrap().major,
        900719925474099
    );
}
