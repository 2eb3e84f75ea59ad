use std::collections::HashSet;
use ratiomaster::client::generator::{
    alphanumeric_char, assemble_peer_id, generate_key, generate_peer_id, hex_char,
    upper_alphanumeric_char, url_encode_peer_id,
};
use ratiomaster::client::profiles::{all_profiles, get_profile, profile_or_first};
use ratiomaster::client::{ClientFamily, ClientProfile, KeyFormat, RandomType};

fn utorrent_profile() -> ClientProfile {
    ClientProfile {
        name: "uTorrent 3.3.2".into(),
        family: ClientFamily::UTorrent,
        version: "3.3.2".into(),
        peer_id_prefix: b"-UT3320-".to_vec(),
        peer_id_random_type: RandomType::Random,
        peer_id_url_encode: true,
        peer_id_url_encode_uppercase: false,
        key_format: KeyFormat::Hex(8),
        key_uppercase: false,
        http_protocol: "HTTP/1.1".into(),
        query_template: String::new(),
        headers_template: String::new(),
        hash_uppercase: false,
        default_numwant: 200,
        compact: true,
        no_peer_id: true,
    }
}

// ---------------------------------------------------------------------------
// Peer ids and keys
// ---------------------------------------------------------------------------

#[test]
fn peer_id_length() {
    let profile = utorrent_profile();
    let peer_id = generate_peer_id(&profile);
    assert_eq!(peer_id.len(), 20);
}

#[test]
fn peer_id_prefix() {
    let profile = utorrent_profile();
    let peer_id = generate_peer_id(&profile);
    assert_eq!(&peer_id[..8], b"-UT3320-");
}

#[test]
fn peer_id_random_suffix_varies() {
    let profile = utorrent_profile();
    let id1 = generate_peer_id(&profile);
    let id2 = generate_peer_id(&profile);
    assert_eq!(&id1[..8], &id2[..8]);
    assert_ne!(&id1[8..], &id2[8..]);
}

#[test]
fn peer_id_alphanumeric_suffix() {
    let mut profile = utorrent_profile();
    profile.peer_id_random_type = RandomType::Alphanumeric;
    let peer_id = generate_peer_id(&profile);
    for &b in &peer_id[8..] {
        assert!(b.is_ascii_alphanumeric(), "byte {b:#04x} is not alphanumeric");
    }
}

#[test]
fn peer_id_numeric_suffix() {
    let mut profile = utorrent_profile();
    profile.peer_id_random_type = RandomType::Numeric;
    let peer_id = generate_peer_id(&profile);
    for &b in &peer_id[8..] {
        assert!(b.is_ascii_digit(), "byte {b:#04x} is not a digit");
    }
}

#[test]
fn peer_id_hex_suffix() {
    let mut profile = utorrent_profile();
    profile.peer_id_random_type = RandomType::Hex;
    let peer_id = generate_peer_id(&profile);
    for &b in &peer_id[8..] {
        assert!(b"0123456789ABCDEF".contains(&b), "byte {b:#04x} is not hex");
    }
}

#[test]
fn key_hex_length_and_chars() {
    let profile = utorrent_profile();
    let key = generate_key(&profile);
    assert_eq!(key.len(), 8);
    for ch in key.chars() {
        assert!("0123456789abcdef".contains(ch), "char '{ch}' not in lowercase hex");
    }
}

#[test]
fn key_hex_uppercase() {
    let mut profile = utorrent_profile();
    profile.key_format = KeyFormat::Hex(8);
    profile.key_uppercase = true;
    let key = generate_key(&profile);
    assert_eq!(key.len(), 8);
    for ch in key.chars() {
        assert!("0123456789ABCDEF".contains(ch), "char '{ch}' not in uppercase hex");
    }
}

#[test]
fn key_numeric() {
    let mut profile = utorrent_profile();
    profile.key_format = KeyFormat::Numeric(5);
    let key = generate_key(&profile);
    assert_eq!(key.len(), 5);
    for ch in key.chars() {
        assert!(ch.is_ascii_digit(), "char '{ch}' is not a digit");
    }
}

#[test]
fn key_alphanumeric() {
    let mut profile = utorrent_profile();
    profile.key_format = KeyFormat::Alphanumeric(8);
    profile.key_uppercase = false;
    let key = generate_key(&profile);
    assert_eq!(key.len(), 8);
    for ch in key.chars() {
        assert!(ch.is_ascii_alphanumeric(), "char '{ch}' not alphanumeric");
    }
}

#[test]
fn key_alphanumeric_uppercase() {
    let mut profile = utorrent_profile();
    profile.key_format = KeyFormat::Alphanumeric(8);
    profile.key_uppercase = true;
    let key = generate_key(&profile);
    assert_eq!(key.len(), 8);
    for ch in key.chars() {
        assert!(
            ch.is_ascii_uppercase() || ch.is_ascii_digit(),
            "char '{ch}' not uppercase alphanumeric"
        );
    }
}

#[test]
fn url_encode_peer_id_basic() {
    let mut peer_id = [0u8; 20];
    peer_id[..8].copy_from_slice(b"-UT3320-");
    peer_id[8] = 0xFF;
    peer_id[9] = 0x00;
    peer_id[10..].copy_from_slice(b"abcdefghij");
    let encoded = url_encode_peer_id(&peer_id, false);
    assert!(encoded.contains("-UT3320-"));
    assert!(encoded.contains("%ff"));
    assert!(encoded.contains("%00"));
    assert!(encoded.contains("abcdefghij"));
}

#[test]
fn url_encode_peer_id_uppercase() {
    let mut peer_id = [0u8; 20];
    peer_id[0] = 0xFF;
    peer_id[1..].fill(b'A');
    let encoded = url_encode_peer_id(&peer_id, true);
    assert!(encoded.starts_with("%FF"));
}

#[test]
fn key_varies_between_calls() {
    let profile = utorrent_profile();
    let k1 = generate_key(&profile);
    let k2 = generate_key(&profile);
    assert_ne!(k1, k2);
}

#[test]
fn long_prefix_truncated() {
    let mut profile = utorrent_profile();
    profile.peer_id_prefix = vec![b'X'; 25];
    let peer_id = generate_peer_id(&profile);
    assert_eq!(peer_id.len(), 20);
    assert!(peer_id.iter().all(|&b| b == b'X'));
}

#[test]
fn peer_id_20_bytes_all_profiles() {
    for profile in all_profiles() {
        let peer_id = generate_peer_id(&profile);
        assert_eq!(peer_id.len(), 20, "{}: peer_id length is {}", profile.name, peer_id.len());
    }
}

#[test]
fn peer_id_prefix_matches_all_profiles() {
    for profile in all_profiles() {
        let peer_id = generate_peer_id(&profile);
        let prefix_len = profile.peer_id_prefix.len().min(20);
        assert_eq!(
            &peer_id[..prefix_len],
            &profile.peer_id_prefix[..prefix_len],
            "{}: prefix mismatch",
            profile.name
        );
    }
}

#[test]
fn key_correct_length_all_profiles() {
    for profile in all_profiles() {
        let key = generate_key(&profile);
        let expected_len = match profile.key_format {
            KeyFormat::Numeric(n) | KeyFormat::Alphanumeric(n) | KeyFormat::Hex(n) => n,
        };
        assert_eq!(key.len(), expected_len, "{}: key length {} != expected {}", profile.name, key.len(), expected_len);
    }
}

#[test]
fn key_format_correct_all_profiles() {
    for profile in all_profiles() {
        let key = generate_key(&profile);
        match profile.key_format {
            KeyFormat::Numeric(_) => {
                for ch in key.chars() {
                    assert!(ch.is_ascii_digit(), "{}: numeric key contains '{}'", profile.name, ch);
                }
            }
            KeyFormat::Alphanumeric(_) => {
                for ch in key.chars() {
                    assert!(ch.is_ascii_alphanumeric(), "{}: alphanumeric key contains '{}'", profile.name, ch);
                }
            }
            KeyFormat::Hex(_) => {
                for ch in key.chars() {
                    assert!(ch.is_ascii_hexdigit(), "{}: hex key contains '{}'", profile.name, ch);
                }
            }
        }
    }
}

#[test]
fn url_encode_peer_id_preserves_unreserved() {
    let mut peer_id = [0u8; 20];
    for (i, b) in b"abcdefghij0123456789".iter().enumerate() {
        peer_id[i] = *b;
    }
    let encoded = url_encode_peer_id(&peer_id, false);
    assert_eq!(encoded, "abcdefghij0123456789");
}

#[test]
fn url_encode_peer_id_encodes_all_special() {
    let mut peer_id = [0u8; 20];
    for (i, slot) in peer_id.iter_mut().enumerate() {
        *slot = i as u8;
    }
    let encoded_lower = url_encode_peer_id(&peer_id, false);
    let encoded_upper = url_encode_peer_id(&peer_id, true);
    assert_eq!(encoded_lower.len(), 60);
    assert_eq!(encoded_upper.len(), 60);
    assert!(encoded_lower.contains("%00"));
    assert!(encoded_upper.contains("%00"));
    assert!(encoded_lower.contains("%0a"));
    assert!(encoded_upper.contains("%0A"));
}

#[test]
fn peer_id_suffix_alphanumeric_valid_chars() {
    for profile in all_profiles().iter().filter(|p| p.peer_id_random_type == RandomType::Alphanumeric) {
        let peer_id = generate_peer_id(profile);
        let prefix_len = profile.peer_id_prefix.len().min(20);
        for &b in &peer_id[prefix_len..] {
            assert!(b.is_ascii_alphanumeric(), "{}: alphanumeric suffix byte {:#04x} not alphanumeric", profile.name, b);
        }
    }
}

#[test]
fn peer_id_suffix_numeric_valid_chars() {
    for profile in all_profiles().iter().filter(|p| p.peer_id_random_type == RandomType::Numeric) {
        let peer_id = generate_peer_id(profile);
        let prefix_len = profile.peer_id_prefix.len().min(20);
        for &b in &peer_id[prefix_len..] {
            assert!(b.is_ascii_digit(), "{}: numeric suffix byte {:#04x} not a digit", profile.name, b);
        }
    }
}

#[test]
fn peer_id_suffix_hex_valid_chars() {
    for profile in all_profiles().iter().filter(|p| p.peer_id_random_type == RandomType::Hex) {
        let peer_id = generate_peer_id(profile);
        let prefix_len = profile.peer_id_prefix.len().min(20);
        for &b in &peer_id[prefix_len..] {
            assert!(b"0123456789ABCDEF".contains(&b), "{}: hex suffix byte {:#04x} not in hex charset", profile.name, b);
        }
    }
}

#[test]
fn character_sets_from_draws() {
    assert_eq!(alphanumeric_char(0), b'a');
    assert_eq!(alphanumeric_char(26), b'A');
    assert_eq!(alphanumeric_char(61), b'9');
    assert_eq!(upper_alphanumeric_char(25), b'Z');
    assert_eq!(upper_alphanumeric_char(26), b'0');
    assert_eq!(hex_char(10, true), b'A');
    assert_eq!(hex_char(15, false), b'f');
}

#[test]
fn assemble_peer_id_keeps_prefix_then_suffix() {
    let id = assemble_peer_id(b"-AB-", &[7u8; 16]);
    assert_eq!(&id[..4], b"-AB-");
    assert!(id[4..].iter().all(|&b| b == 7));
    let long = assemble_peer_id(&[b'Y'; 30], &[]);
    assert_eq!(long, [b'Y'; 20]);
}

// ---------------------------------------------------------------------------
// Profiles
// ---------------------------------------------------------------------------

#[test]
fn total_profile_count() {
    assert_eq!(all_profiles().len(), 41);
}

#[test]
fn utorrent_count() {
    let count = all_profiles().iter().filter(|p| p.family == ClientFamily::UTorrent).count();
    assert_eq!(count, 12);
}

#[test]
fn bitcomet_count() {
    let count = all_profiles().iter().filter(|p| p.family == ClientFamily::BitComet).count();
    assert_eq!(count, 6);
}

#[test]
fn vuze_azureus_count() {
    let count = all_profiles()
        .iter()
        .filter(|p| p.family == ClientFamily::Vuze || p.family == ClientFamily::Azureus)
        .count();
    assert_eq!(count, 7);
}

#[test]
fn other_profiles_count() {
    let count = all_profiles()
        .iter()
        .filter(|p| {
            !matches!(
                p.family,
                ClientFamily::UTorrent | ClientFamily::BitComet | ClientFamily::Vuze | ClientFamily::Azureus
            )
        })
        .count();
    assert_eq!(count, 16);
}

#[test]
fn unique_names() {
    let profiles = all_profiles();
    let names: Vec<&str> = profiles.iter().map(|p| p.name.as_str()).collect();
    let mut unique = names.clone();
    unique.sort();
    unique.dedup();
    assert_eq!(names.len(), unique.len(), "duplicate profile names found");
}

#[test]
fn get_profile_by_name() {
    let profile = get_profile("uTorrent 3.3.2").unwrap();
    assert_eq!(profile.family, ClientFamily::UTorrent);
    assert_eq!(profile.version, "3.3.2");
}

#[test]
fn get_profile_case_insensitive() {
    let profile = get_profile("UTORRENT 3.3.2").unwrap();
    assert_eq!(profile.family, ClientFamily::UTorrent);
}

#[test]
fn get_profile_not_found() {
    assert!(get_profile("NonExistent Client").is_none());
}

#[test]
fn utorrent_profiles_common_settings() {
    for profile in all_profiles().iter().filter(|p| p.family == ClientFamily::UTorrent) {
        assert_eq!(profile.http_protocol, "HTTP/1.1", "{}", profile.name);
        assert!(!profile.hash_uppercase, "{}", profile.name);
        assert_eq!(profile.key_format, KeyFormat::Hex(8), "{}", profile.name);
        assert_eq!(profile.default_numwant, 200, "{}", profile.name);
        assert!(profile.compact, "{}", profile.name);
        assert!(profile.no_peer_id, "{}", profile.name);
        assert_eq!(profile.peer_id_random_type, RandomType::Random, "{}", profile.name);
        assert!(profile.peer_id_url_encode, "{}", profile.name);
        assert!(!profile.peer_id_url_encode_uppercase, "{}", profile.name);
    }
}

#[test]
fn bitcomet_profiles_common_settings() {
    for profile in all_profiles().iter().filter(|p| p.family == ClientFamily::BitComet) {
        assert!(profile.hash_uppercase, "{}", profile.name);
        assert_eq!(profile.key_format, KeyFormat::Numeric(5), "{}", profile.name);
        assert_eq!(profile.default_numwant, 200, "{}", profile.name);
        assert!(profile.query_template.contains("natmapped=1"), "{}", profile.name);
    }
}

#[test]
fn vuze_profiles_common_settings() {
    for profile in all_profiles()
        .iter()
        .filter(|p| p.family == ClientFamily::Vuze || p.family == ClientFamily::Azureus)
    {
        assert!(profile.hash_uppercase, "{}", profile.name);
        assert_eq!(profile.key_format, KeyFormat::Alphanumeric(8), "{}", profile.name);
        assert_eq!(profile.default_numwant, 50, "{}", profile.name);
        assert!(profile.query_template.contains("supportcrypto=1"), "{}", profile.name);
    }
}

#[test]
fn peer_id_prefix_valid_length() {
    for profile in all_profiles() {
        assert!(
            profile.peer_id_prefix.len() <= 20,
            "{}: prefix len {} > 20",
            profile.name,
            profile.peer_id_prefix.len()
        );
    }
}

#[test]
fn all_profiles_have_query_template() {
    for profile in all_profiles() {
        assert!(profile.query_template.contains("{infohash}"), "{}: missing infohash placeholder", profile.name);
        assert!(profile.query_template.contains("{peerid}"), "{}: missing peerid placeholder", profile.name);
    }
}

#[test]
fn bitlord_prefix() {
    let profile = get_profile("BitLord 1.1").unwrap();
    assert_eq!(profile.peer_id_prefix.len(), 14);
    assert_eq!(&profile.peer_id_prefix[..4], b"exbc");
    assert_eq!(profile.peer_id_prefix[4], 0x01);
    assert_eq!(profile.peer_id_prefix[5], 0x01);
    assert_eq!(&profile.peer_id_prefix[6..10], b"LORD");
}

#[test]
fn bitspirit_old_prefix() {
    let profile = get_profile("BitSpirit 3.1.0.077").unwrap();
    assert_eq!(profile.peer_id_prefix[0], 0x00);
    assert_eq!(profile.peer_id_prefix[1], 0x03);
    assert_eq!(&profile.peer_id_prefix[2..4], b"BS");
}

#[test]
fn transmission_supportcrypto() {
    for name in &["Transmission 2.82(14160)", "Transmission 2.92(14714)"] {
        let profile = get_profile(name).unwrap();
        assert!(profile.query_template.contains("supportcrypto=1"), "{name}");
    }
}

#[test]
fn deluge_http10() {
    for name in &["Deluge 1.2.0", "Deluge 0.5.8.7", "Deluge 0.5.8.6"] {
        let profile = get_profile(name).unwrap();
        assert_eq!(profile.http_protocol, "HTTP/1.0", "{name}");
    }
}

#[test]
fn ktorrent_numeric_peer_id() {
    let profile = get_profile("KTorrent 2.2.1").unwrap();
    assert_eq!(profile.peer_id_random_type, RandomType::Numeric);
    assert_eq!(profile.key_format, KeyFormat::Numeric(10));
}

#[test]
fn all_41_profiles_loadable_by_name() {
    let names: Vec<String> = all_profiles().iter().map(|p| p.name.clone()).collect();
    assert_eq!(names.len(), 41);
    for name in &names {
        assert!(get_profile(name).is_some(), "profile '{}' not found by name", name);
    }
}

#[test]
fn all_profiles_have_valid_http_protocol() {
    for profile in all_profiles() {
        assert!(
            profile.http_protocol == "HTTP/1.0" || profile.http_protocol == "HTTP/1.1",
            "{}: invalid http_protocol '{}'",
            profile.name,
            profile.http_protocol
        );
    }
}

#[test]
fn all_profiles_have_port_placeholder() {
    for profile in all_profiles() {
        assert!(profile.query_template.contains("{port}"), "{}: missing {{port}} placeholder", profile.name);
    }
}

#[test]
fn all_profiles_have_uploaded_placeholder() {
    for profile in all_profiles() {
        assert!(profile.query_template.contains("{uploaded}"), "{}: missing {{uploaded}} placeholder", profile.name);
    }
}

#[test]
fn all_profiles_have_downloaded_placeholder() {
    for profile in all_profiles() {
        assert!(profile.query_template.contains("{downloaded}"), "{}: missing {{downloaded}} placeholder", profile.name);
    }
}

#[test]
fn all_profiles_have_left_placeholder() {
    for profile in all_profiles() {
        assert!(profile.query_template.contains("{left}"), "{}: missing {{left}} placeholder", profile.name);
    }
}

#[test]
fn all_profiles_have_key_placeholder() {
    for profile in all_profiles() {
        assert!(profile.query_template.contains("{key}"), "{}: missing {{key}} placeholder", profile.name);
    }
}

#[test]
fn all_profiles_have_event_placeholder() {
    for profile in all_profiles() {
        assert!(profile.query_template.contains("{event}"), "{}: missing {{event}} placeholder", profile.name);
    }
}

#[test]
fn all_profiles_have_numwant_placeholder() {
    for profile in all_profiles() {
        assert!(profile.query_template.contains("{numwant}"), "{}: missing {{numwant}} placeholder", profile.name);
    }
}

#[test]
fn all_profiles_nonzero_numwant() {
    for profile in all_profiles() {
        assert!(profile.default_numwant > 0, "{}: default_numwant is 0", profile.name);
    }
}

#[test]
fn all_profiles_nonempty_name() {
    for profile in all_profiles() {
        assert!(!profile.name.is_empty(), "profile has empty name");
    }
}

#[test]
fn all_profiles_nonempty_version() {
    for profile in all_profiles() {
        assert!(!profile.version.is_empty(), "{}: has empty version", profile.name);
    }
}

#[test]
fn family_coverage_all_16() {
    let families: HashSet<ClientFamily> = all_profiles().iter().map(|p| p.family).collect();
    assert_eq!(families.len(), 16);
}

#[test]
fn utorrent_peer_id_prefixes_start_with_ut() {
    for profile in all_profiles().iter().filter(|p| p.family == ClientFamily::UTorrent) {
        let prefix_str = std::str::from_utf8(&profile.peer_id_prefix).unwrap();
        assert!(prefix_str.starts_with("-UT"), "{}: prefix '{}' doesn't start with -UT", profile.name, prefix_str);
    }
}

#[test]
fn bitcomet_peer_id_prefixes_start_with_bc() {
    for profile in all_profiles().iter().filter(|p| p.family == ClientFamily::BitComet) {
        let prefix_str = std::str::from_utf8(&profile.peer_id_prefix).unwrap();
        assert!(prefix_str.starts_with("-BC"), "{}: prefix '{}' doesn't start with -BC", profile.name, prefix_str);
    }
}

#[test]
fn azureus_peer_id_prefixes_start_with_az() {
    for profile in all_profiles()
        .iter()
        .filter(|p| p.family == ClientFamily::Azureus || p.family == ClientFamily::Vuze)
    {
        let prefix_str = std::str::from_utf8(&profile.peer_id_prefix).unwrap();
        assert!(prefix_str.starts_with("-AZ"), "{}: prefix '{}' doesn't start with -AZ", profile.name, prefix_str);
    }
}

#[test]
fn vuze_headers_template_keeps_braces() {
    let p = get_profile("Vuze 4.2.0.8").unwrap();
    assert_eq!(p.headers_template, "User-Agent: Azureus 4208;{}\r\nAccept-Encoding: gzip");
    let u = get_profile("uTorrent 1.6").unwrap();
    assert_eq!(u.headers_template, "User-Agent: uTorrent/16000\r\nAccept-Encoding: gzip");
}

#[test]
fn profile_or_first_falls_back_to_first_profile() {
    assert_eq!(profile_or_first("no such client").name, "uTorrent 3.3.2");
    assert_eq!(profile_or_first("bitcomet 1.20").name, "BitComet 1.20");
}

#[test]
fn profile_lookup_ignores_ascii_case() {
    let a = get_profile("UTORRENT 3.3.2").map(|p| p.name);
    let b = get_profile("utorrent 3.3.2").map(|p| p.name);
    assert_eq!(a, Some("uTorrent 3.3.2".to_string()));
    assert_eq!(a, b);
    assert!(get_profile("utorrent 3.3.2x").is_none());
}

#[test]
fn each_name_finds_its_own_profile_in_any_case() {
    for profile in all_profiles() {
        let found = get_profile(&profile.name.to_uppercase()).unwrap();
        assert_eq!(found.name, profile.name);
        assert_eq!(found.version, profile.version);
        assert_eq!(found.peer_id_prefix, profile.peer_id_prefix);
    }
}

#[test]
fn all_templates_carry_every_placeholder() {
    let placeholders = [
        "{infohash}", "{peerid}", "{port}", "{uploaded}", "{downloaded}", "{left}", "{key}", "{event}",
        "{numwant}",
    ];
    for profile in all_profiles() {
        for p in placeholders {
            assert!(profile.query_template.contains(p), "{}: missing {}", profile.name, p);
        }
    }
}
