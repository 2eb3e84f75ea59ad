use ratiomaster::client::{ClientFamily, KeyFormat, RandomType};
use ratiomaster::config::custom_profiles::{
    default_family, default_http_protocol, default_key_format, default_numwant,
    default_random_type, default_true, family_from_name, parse_key_format, profiles_dir,
    random_type_from_name, CustomProfileDef,
};
use ratiomaster::config::session::{session_filename, session_filename_for_hash, sessions_dir};
use ratiomaster::config::version::{
    check_update, is_newer, parse_latest_version, parse_semver, version_from_tag, CURRENT_VERSION,
};
use ratiomaster::config::{config_dir, config_dir_under, config_file_path, AppConfig, ProxyToml, StopToml};
use ratiomaster::proxy::ProxyConfig;

#[test]
fn parse_key_format_hex() {
    assert_eq!(parse_key_format("hex:8").unwrap(), KeyFormat::Hex(8));
}

#[test]
fn parse_key_format_numeric() {
    assert_eq!(parse_key_format("numeric:10").unwrap(), KeyFormat::Numeric(10));
}

#[test]
fn parse_key_format_invalid() {
    assert!(parse_key_format("bad").is_err());
}

#[test]
fn parse_key_format_messages() {
    assert_eq!(parse_key_format("bad").unwrap_err(), "invalid key format: bad (expected 'type:length')");
    assert_eq!(parse_key_format("hex:x").unwrap_err(), "invalid key length: x");
    assert_eq!(parse_key_format("Octal:3").unwrap_err(), "unknown key format type: octal");
    assert_eq!(parse_key_format("HEX:4").unwrap(), KeyFormat::Hex(4));
    assert_eq!(parse_key_format("alphanumeric:6:7").unwrap_err(), "invalid key length: 6:7");
}

fn def(family: &str) -> CustomProfileDef {
    CustomProfileDef {
        name: "Bad".into(),
        family: family.into(),
        version: "1.0".into(),
        peer_id_prefix: "-XX0000-".into(),
        peer_id_random_type: "alphanumeric".into(),
        peer_id_url_encode: false,
        peer_id_url_encode_uppercase: false,
        key_format: "hex:8".into(),
        key_uppercase: false,
        http_protocol: "HTTP/1.1".into(),
        query_template: String::new(),
        headers_template: String::new(),
        hash_uppercase: false,
        default_numwant: 200,
        compact: true,
        no_peer_id: false,
    }
}

#[test]
fn unknown_family_errors() {
    assert!(def("unknown_client").to_client_profile().is_err());
}

#[test]
fn custom_profile_converts() {
    let mut d = def("UTorrent");
    d.name = "TestClient 1.0".into();
    d.peer_id_prefix = "-TC1000-".into();
    let profile = d.to_client_profile().unwrap();
    assert_eq!(profile.name, "TestClient 1.0");
    assert_eq!(profile.family, ClientFamily::UTorrent);
    assert_eq!(profile.peer_id_prefix, b"-TC1000-");
    assert_eq!(profile.peer_id_random_type, RandomType::Alphanumeric);
    assert_eq!(profile.key_format, KeyFormat::Hex(8));
    assert_eq!(def("foo").to_client_profile().unwrap_err(), "unknown client family: foo");
    let mut d2 = def("deluge");
    d2.peer_id_random_type = "Weird".into();
    assert_eq!(d2.to_client_profile().unwrap_err(), "unknown random type: weird");
    assert_eq!(family_from_name("gnomebt"), Some(ClientFamily::GnomeBT));
    assert_eq!(random_type_from_name("hex"), Some(RandomType::Hex));
}

#[test]
fn proxy_toml_to_config_none() {
    let proxy = ProxyToml::default();
    assert!(matches!(proxy.to_proxy_config(), ProxyConfig::Direct));
}

#[test]
fn proxy_toml_to_config_socks5() {
    let proxy = ProxyToml {
        proxy_type: "socks5".into(),
        host: "127.0.0.1".into(),
        port: 9050,
        username: "user".into(),
        password: "pass".into(),
    };
    match proxy.to_proxy_config() {
        ProxyConfig::Socks5 { proxy_host, proxy_port, credentials } => {
            assert_eq!(proxy_host, "127.0.0.1");
            assert_eq!(proxy_port, 9050);
            assert!(credentials.is_some());
        }
        _ => panic!("expected Socks5"),
    }
}

#[test]
fn proxy_toml_http_without_user() {
    let proxy = ProxyToml {
        proxy_type: "http".into(),
        host: "p".into(),
        port: 3128,
        username: String::new(),
        password: "ignored".into(),
    };
    match proxy.to_proxy_config() {
        ProxyConfig::HttpConnect { proxy_host, proxy_port, credentials } => {
            assert_eq!(proxy_host, "p");
            assert_eq!(proxy_port, 3128);
            assert!(credentials.is_none());
        }
        _ => panic!("expected HttpConnect"),
    }
}

#[test]
fn default_config_values_and_speeds() {
    let config = AppConfig::default();
    assert_eq!(config.general.default_client, "uTorrent 3.3.2");
    assert_eq!(config.general.default_upload_speed, 100);
    assert_eq!(config.general.default_interval, 1800);
    assert!(config.general.scrape_enabled);
    let speed = config.speed_config();
    assert_eq!(speed.upload_min, 100 * 1024);
    assert_eq!(speed.upload_max, 100 * 1024);
    let mut c2 = AppConfig::default();
    c2.upload.random_enabled = true;
    c2.upload.random_min = 50;
    c2.upload.random_max = 200;
    let s2 = c2.speed_config();
    assert_eq!(s2.upload_min, 50 * 1024);
    assert_eq!(s2.upload_max, 200 * 1024);
    assert_eq!(c2.checked_speed_config().unwrap().upload_max, 200 * 1024);
    c2.download.random_enabled = true;
    c2.download.random_max = u64::MAX;
    assert!(c2.checked_speed_config().is_none());
    assert_eq!(StopToml::default().stop_type, "never");
}

#[test]
fn session_filename_deterministic() {
    let f1 = session_filename("/tmp/test.torrent");
    let f2 = session_filename("/tmp/test.torrent");
    assert_eq!(f1, f2);
    assert!(f1.ends_with(".json"));
}

#[test]
fn session_filename_different_paths() {
    let f1 = session_filename("/tmp/a.torrent");
    let f2 = session_filename("/tmp/b.torrent");
    assert_ne!(f1, f2);
}

#[test]
fn session_filename_format() {
    assert_eq!(session_filename_for_hash(0x1234_abcd), "000000001234abcd.json");
    assert_eq!(session_filename_for_hash(u64::MAX), "ffffffffffffffff.json");
    assert_eq!(session_filename("/x").len(), 21);
}

#[test]
fn parse_latest_version_valid() {
    let json = r#"{"tag_name": "v0.2.0", "name": "Release 0.2.0"}"#;
    assert_eq!(parse_latest_version(json), Some("0.2.0".into()));
}

#[test]
fn parse_latest_version_no_prefix() {
    let json = r#"{"tag_name": "1.0.0"}"#;
    assert_eq!(parse_latest_version(json), Some("1.0.0".into()));
}

#[test]
fn parse_latest_version_missing_field() {
    let json = r#"{"name": "Release"}"#;
    assert_eq!(parse_latest_version(json), None);
}

#[test]
fn parse_latest_version_invalid_json() {
    assert_eq!(parse_latest_version("not json"), None);
}

#[test]
fn version_from_tag_strips_one_v() {
    assert_eq!(version_from_tag("vv1"), "v1");
    assert_eq!(version_from_tag("1.2"), "1.2");
}

#[test]
fn is_newer_true() {
    assert!(is_newer("0.1.0", "0.2.0"));
    assert!(is_newer("0.1.0", "1.0.0"));
    assert!(is_newer("1.0.0", "1.0.1"));
}

#[test]
fn is_newer_false() {
    assert!(!is_newer("0.2.0", "0.1.0"));
    assert!(!is_newer("0.1.0", "0.1.0"));
    assert!(!is_newer("1.0.0", "0.9.9"));
}

#[test]
fn check_update_newer_available() {
    let json = r#"{"tag_name": "v99.0.0"}"#;
    assert!(check_update(json).is_some());
}

#[test]
fn check_update_current_is_latest() {
    let json = format!(r#"{{"tag_name": "v{}"}}"#, CURRENT_VERSION);
    assert!(check_update(&json).is_none());
}

#[test]
fn current_version_not_empty() {
    assert!(!CURRENT_VERSION.is_empty());
}

#[test]
fn parse_semver_valid() {
    assert_eq!(parse_semver("1.2.3"), Some((1, 2, 3)));
    assert_eq!(parse_semver("0.1.0"), Some((0, 1, 0)));
}

#[test]
fn parse_semver_two_parts() {
    assert_eq!(parse_semver("1.0"), Some((1, 0, 0)));
}

#[test]
fn parse_semver_invalid() {
    assert_eq!(parse_semver("bad"), None);
}

#[test]
fn parse_semver_lenient_patch() {
    assert_eq!(parse_semver("1.2.x"), Some((1, 2, 0)));
    assert_eq!(parse_semver("1.x.3"), None);
    assert_eq!(parse_semver("1.2.3.4"), Some((1, 2, 3)));
}

#[test]
fn config_dir_not_empty() {
    let dir = config_dir();
    assert!(dir.contains("ratiomaster"));
}

#[test]
fn sessions_dir_path() {
    let dir = sessions_dir();
    assert!(dir.contains("sessions"));
}

#[test]
fn profiles_dir_path() {
    let dir = profiles_dir();
    assert!(dir.contains("profiles"));
}

#[test]
fn config_file_path_under_config_dir() {
    let path = config_file_path();
    assert!(path.ends_with("config.toml"));
    assert!(path.starts_with(&config_dir()));
    assert!(sessions_dir().starts_with(&config_dir()));
    assert!(profiles_dir().ends_with("profiles"));
}

#[test]
fn custom_profile_file_defaults() {
    assert_eq!(default_family(), "utorrent");
    assert_eq!(default_random_type(), "alphanumeric");
    assert_eq!(default_key_format(), "hex:8");
    assert_eq!(default_http_protocol(), "HTTP/1.1");
    assert_eq!(default_numwant(), 200);
    assert!(default_true());
    assert!(family_from_name(&default_family()).is_some());
    assert!(random_type_from_name(&default_random_type()).is_some());
    assert!(parse_key_format(&default_key_format()).is_ok());
}

#[test]
fn newer_is_a_strict_order_on_examples() {
    let versions = ["0.1.0", "0.2.0", "0.2.1", "1.0.0", "x.y"];
    for a in versions {
        assert!(!is_newer(a, a));
        for b in versions {
            if is_newer(a, b) {
                assert!(!is_newer(b, a));
            }
            for c in versions {
                if is_newer(a, b) && is_newer(b, c) {
                    assert!(is_newer(a, c));
                }
            }
        }
    }
}

#[test]
fn paths_are_joined_with_one_separator() {
    let sep = std::path::MAIN_SEPARATOR;
    assert_eq!(config_dir_under(Some("/home/a/.config".into())), format!("/home/a/.config{sep}ratiomaster"));
    assert_eq!(config_dir_under(None), format!(".{sep}ratiomaster"));
    let dir = config_dir();
    assert!(dir.len() > "ratiomaster".len());
    assert_eq!(config_file_path(), format!("{dir}{sep}config.toml"));
    assert_eq!(sessions_dir(), format!("{dir}{sep}sessions"));
    assert_eq!(profiles_dir(), format!("{dir}{sep}profiles"));
}
