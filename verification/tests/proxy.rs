use windows_erg::error::ProxyError;
use windows_erg::proxy::{
    parse_proxy_bypass, parse_proxy_server, plan_proxy_lookup, proxy_config_from_values, proxy_settings_per_user,
    validate_proxy_url, IeProxyConfig, ProxyLookup,
};
use windows_erg::Error;

fn get<'a>(map: &'a [(String, String)], key: &str) -> Option<&'a String> {
    map.iter().find(|(k, _)| k == key).map(|(_, v)| v)
}

#[test]
fn parse_single_proxy_server() {
    let parsed = parse_proxy_server("proxy.local:8080");
    assert_eq!(get(&parsed, "all"), Some(&"proxy.local:8080".to_string()));
}

#[test]
fn parse_scheme_proxy_server() {
    let parsed = parse_proxy_server("http=proxy:8080;https=secure:8443");
    assert_eq!(get(&parsed, "http"), Some(&"proxy:8080".to_string()));
    assert_eq!(get(&parsed, "https"), Some(&"secure:8443".to_string()));
}

#[test]
fn parse_bypass_list() {
    let bypass = parse_proxy_bypass(Some("<local>;*.contoso.com;10.*"));
    assert_eq!(bypass.len(), 3);
    assert_eq!(bypass[0], "<local>");
}

#[test]
fn parse_proxy_server_lowercases_and_trims_schemes() {
    let parsed = parse_proxy_server("  HTTP = a:1 ; ; =x ; ftp= ; https=b:2;http=c:3 ");
    assert_eq!(parsed.len(), 2);
    assert_eq!(get(&parsed, "http"), Some(&"c:3".to_string()));
    assert_eq!(get(&parsed, "https"), Some(&"b:2".to_string()));
    assert_eq!(get(&parsed, "ftp"), None);
}

#[test]
fn parse_proxy_server_blank_is_empty() {
    assert!(parse_proxy_server("   ").is_empty());
}

#[test]
fn parse_bypass_absent_or_blank_entries() {
    assert!(parse_proxy_bypass(None).is_empty());
    assert_eq!(parse_proxy_bypass(Some(" a ;; b ;")), vec!["a".to_string(), "b".to_string()]);
}

#[test]
fn proxy_config_none_without_settings() {
    let r = proxy_config_from_values(Some(0), Some("p:1".to_string()), None, Some(0), None);
    assert!(matches!(r, Ok(None)));
}

#[test]
fn proxy_config_enabled_without_server_fails() {
    match proxy_config_from_values(Some(1), Some("   ".to_string()), None, None, None) {
        Err(Error::Proxy(ProxyError::InvalidConfig(e))) => {
            assert_eq!(e.setting, "ProxyServer");
            assert_eq!(e.reason, "ProxyEnable is 1 but ProxyServer is missing");
        }
        _ => panic!("expected an invalid config error"),
    }
}

#[test]
fn proxy_config_enabled_with_server() {
    let config = proxy_config_from_values(
        Some(1),
        Some("http=proxy:8080".to_string()),
        Some("<local>".to_string()),
        Some(1),
        None,
    )
    .unwrap()
    .unwrap();
    assert_eq!(config.server, "http=proxy:8080");
    assert_eq!(config.by_scheme, vec![("http".to_string(), "proxy:8080".to_string())]);
    assert_eq!(config.bypass, vec!["<local>".to_string()]);
    assert!(config.auto_detect);
    assert_eq!(config.auto_config_url, None);
}

#[test]
fn proxy_config_auto_config_only() {
    let config =
        proxy_config_from_values(None, None, None, None, Some("http://wpad/proxy.pac".to_string())).unwrap().unwrap();
    assert!(config.server.is_empty());
    assert!(config.by_scheme.is_empty());
    assert_eq!(config.auto_config_url.as_deref(), Some("http://wpad/proxy.pac"));
}

#[test]
fn proxy_settings_per_user_value() {
    assert!(proxy_settings_per_user(Some(1)));
    assert!(!proxy_settings_per_user(Some(0)));
    assert!(!proxy_settings_per_user(None));
}

#[test]
fn validate_proxy_url_rejects_blank() {
    assert!(validate_proxy_url("https://example.com").is_ok());
    match validate_proxy_url("  ") {
        Err(Error::InvalidParameter(e)) => {
            assert_eq!(e.parameter, "url");
            assert_eq!(e.reason, "url cannot be empty");
        }
        _ => panic!("expected invalid parameter"),
    }
}

#[test]
fn plan_proxy_lookup_choices() {
    let ie = IeProxyConfig { auto_detect: true, auto_config_url: None, proxy: None, proxy_bypass: None };
    match plan_proxy_lookup("https://example.com", ie) {
        ProxyLookup::Resolve { flags, auto_detect_flags, auto_config_url } => {
            assert_eq!(flags, 0x1);
            assert_eq!(auto_detect_flags, 0x3);
            assert_eq!(auto_config_url, None);
        }
        _ => panic!("expected auto-proxy resolution"),
    }
    let ie = IeProxyConfig {
        auto_detect: false,
        auto_config_url: None,
        proxy: Some("proxy:3128".to_string()),
        proxy_bypass: Some("<local>".to_string()),
    };
    match plan_proxy_lookup("https://example.com", ie) {
        ProxyLookup::Static(res) => {
            assert_eq!(res.url, "https://example.com");
            assert_eq!(res.by_scheme, vec![("all".to_string(), "proxy:3128".to_string())]);
            assert_eq!(res.bypass, vec!["<local>".to_string()]);
        }
        _ => panic!("expected the static proxy"),
    }
    let ie = IeProxyConfig { auto_detect: false, auto_config_url: None, proxy: None, proxy_bypass: None };
    assert!(matches!(plan_proxy_lookup("https://example.com", ie), ProxyLookup::NoProxy));
}
