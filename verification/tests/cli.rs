use ratiomaster::cli::{build_proxy_config, checked_range, checked_speed_bounds, engine_config_port, known_proxy_type, parse_range, speed_bounds};
use ratiomaster::config::{ProxyToml, SpeedRangeConfig};
use ratiomaster::proxy::ProxyConfig;

#[test]
fn parse_range_valid() {
    assert_eq!(parse_range("50:150", 100), (50 * 1024, 150 * 1024));
}

#[test]
fn parse_range_invalid() {
    assert_eq!(parse_range("bad", 100), (100 * 1024, 100 * 1024));
}

#[test]
fn parse_range_partial() {
    assert_eq!(parse_range("50:bad", 100), (50 * 1024, 100 * 1024));
}

#[test]
fn parse_range_three_parts_uses_default() {
    assert_eq!(parse_range("1:2:3", 7), (7 * 1024, 7 * 1024));
}

#[test]
fn proxy_types_known() {
    assert!(known_proxy_type("socks5"));
    assert!(!known_proxy_type("SOCKS5"));
}

fn socks5_base() -> ProxyToml {
    ProxyToml {
        proxy_type: "socks5".into(),
        host: "proxy.local".into(),
        port: 1080,
        username: "alice".into(),
        password: "secret".into(),
    }
}

#[test]
fn proxy_from_config_when_no_type_given() {
    match build_proxy_config(None, Some("ignored"), None, None, None, &socks5_base()).unwrap() {
        ProxyConfig::Socks5 { proxy_host, proxy_port, credentials } => {
            assert_eq!(proxy_host, "proxy.local");
            assert_eq!(proxy_port, 1080);
            let c = credentials.unwrap();
            assert_eq!(c.username, "alice");
            assert_eq!(c.password, "secret");
        }
        _ => panic!("expected socks5"),
    }
}

#[test]
fn proxy_type_on_command_line_overrides_config() {
    match build_proxy_config(Some("http"), Some("cli.host"), Some(3128), None, Some("pw"), &socks5_base()).unwrap() {
        ProxyConfig::HttpConnect { proxy_host, proxy_port, credentials } => {
            assert_eq!(proxy_host, "cli.host");
            assert_eq!(proxy_port, 3128);
            let c = credentials.unwrap();
            assert_eq!(c.username, "alice");
            assert_eq!(c.password, "pw");
        }
        _ => panic!("expected http"),
    }
    match build_proxy_config(Some("socks4"), None, None, Some(""), None, &socks5_base()).unwrap() {
        ProxyConfig::Socks4 { proxy_host, proxy_port, user_id } => {
            assert_eq!(proxy_host, "proxy.local");
            assert_eq!(proxy_port, 1080);
            assert_eq!(user_id, "");
        }
        _ => panic!("expected socks4"),
    }
    match build_proxy_config(Some("socks5"), None, None, Some(""), None, &socks5_base()).unwrap() {
        ProxyConfig::Socks5 { credentials, .. } => assert!(credentials.is_none()),
        _ => panic!("expected socks5"),
    }
}

#[test]
fn unknown_proxy_type_is_refused() {
    assert_eq!(build_proxy_config(Some("socks6"), None, None, None, None, &socks5_base()).err(), Some("socks6".to_string()));
}

#[test]
fn speed_bounds_sources() {
    let off = SpeedRangeConfig { random_enabled: false, random_min: 10, random_max: 20 };
    let on = SpeedRangeConfig { random_enabled: true, random_min: 10, random_max: 20 };
    assert_eq!(speed_bounds(Some("50:150"), &on, 100), (50 * 1024, 150 * 1024));
    assert_eq!(speed_bounds(None, &on, 100), (10 * 1024, 20 * 1024));
    assert_eq!(speed_bounds(None, &off, 100), (100 * 1024, 100 * 1024));
    assert_eq!(speed_bounds(Some("x"), &on, 7), (7 * 1024, 7 * 1024));
}

#[test]
fn reported_port_defaults() {
    assert_eq!(engine_config_port(None), 6881);
    assert_eq!(engine_config_port(Some(51413)), 51413);
}

#[test]
fn checked_ranges() {
    assert_eq!(checked_range("50:150", 100), Some((50 * 1024, 150 * 1024)));
    assert_eq!(checked_range("1:18446744073709551615", 100), None);
    let off = SpeedRangeConfig { random_enabled: false, random_min: 0, random_max: 0 };
    assert_eq!(checked_speed_bounds(None, &off, 100), Some((100 * 1024, 100 * 1024)));
    assert_eq!(checked_speed_bounds(None, &off, u64::MAX), None);
}
