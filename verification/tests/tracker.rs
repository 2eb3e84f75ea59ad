use ratiomaster::bencode::{encode, BValue};
use ratiomaster::encoding::{is_unreserved, url_encode};
use ratiomaster::tracker::announce::{build_announce_url, build_headers, round_by_denominator, AnnounceParams};
use ratiomaster::tracker::response::{parse, parse_ipv4, TrackerResponseError};
use ratiomaster::tracker::scrape::{self, announce_to_scrape_url, build_scrape_url};

fn dict(mut pairs: Vec<(Vec<u8>, BValue)>) -> BValue {
    pairs.sort_by(|a, b| a.0.cmp(&b.0));
    BValue::Dict(pairs)
}

// ---------------------------------------------------------------------------
// URL encoding
// ---------------------------------------------------------------------------

#[test]
fn encode_all_zeros() {
    let input = [0u8; 3];
    assert_eq!(url_encode(&input, true), "%00%00%00");
    assert_eq!(url_encode(&input, false), "%00%00%00");
}

#[test]
fn encode_all_unreserved() {
    let input = b"abc123-_.~XYZ";
    assert_eq!(url_encode(input, true), "abc123-_.~XYZ");
    assert_eq!(url_encode(input, false), "abc123-_.~XYZ");
}

#[test]
fn encode_mixed() {
    let input = [0x41, 0xFF, 0x30];
    assert_eq!(url_encode(&input, true), "A%FF0");
    assert_eq!(url_encode(&input, false), "A%ff0");
}

#[test]
fn encode_info_hash_known_vector() {
    let hash: [u8; 20] = [
        0x12, 0x34, 0x56, 0x78, 0x9a, 0xbc, 0xde, 0xf0, 0x12, 0x34, 0x56, 0x78, 0x9a, 0xbc, 0xde, 0xf0,
        0x12, 0x34, 0x56, 0x78,
    ];
    assert_eq!(url_encode(&hash, true), "%124Vx%9A%BC%DE%F0%124Vx%9A%BC%DE%F0%124Vx");
    assert_eq!(url_encode(&hash, false), "%124Vx%9a%bc%de%f0%124Vx%9a%bc%de%f0%124Vx");
}

#[test]
fn encode_empty() {
    assert_eq!(url_encode(&[], true), "");
}

#[test]
fn encode_space_and_special() {
    let input = b" /&=";
    assert_eq!(url_encode(input, true), "%20%2F%26%3D");
    assert_eq!(url_encode(input, false), "%20%2f%26%3d");
}

#[test]
fn uppercase_vs_lowercase() {
    let input = [0xAB];
    assert_eq!(url_encode(&input, true), "%AB");
    assert_eq!(url_encode(&input, false), "%ab");
}

#[test]
fn encode_all_byte_values_unreserved_passthrough() {
    for byte in 0u8..=255 {
        let encoded = url_encode(&[byte], true);
        if is_unreserved(byte) {
            assert_eq!(encoded.len(), 1, "byte {byte:#04x} should pass through");
            assert_eq!(encoded.as_bytes()[0], byte);
        } else {
            assert_eq!(encoded.len(), 3, "byte {byte:#04x} should be percent-encoded");
            assert!(encoded.starts_with('%'));
        }
    }
}

// ---------------------------------------------------------------------------
// Announce
// ---------------------------------------------------------------------------

fn test_params() -> AnnounceParams {
    AnnounceParams {
        info_hash: [
            0x12, 0x34, 0x56, 0x78, 0x9a, 0xbc, 0xde, 0xf0, 0x12, 0x34, 0x56, 0x78, 0x9a, 0xbc, 0xde,
            0xf0, 0x12, 0x34, 0x56, 0x78,
        ],
        peer_id: *b"-UT3600-abcdefghijkl",
        port: 6881,
        uploaded: 123456789,
        downloaded: 987654321,
        left: 1000000,
        numwant: 200,
        key: "A1B2C3D4".into(),
        event: "started".into(),
        local_ip: "192.168.1.100".into(),
    }
}

#[test]
fn build_url_basic() {
    let params = test_params();
    let template = "info_hash={infohash}&peer_id={peerid}&port={port}&uploaded={uploaded}&downloaded={downloaded}&left={left}&numwant={numwant}&key={key}&event={event}";
    let url = build_announce_url("http://tracker.test/announce", template, &params, true);
    assert!(url.starts_with("http://tracker.test/announce?"));
    assert!(url.contains("info_hash="));
    assert!(url.contains("peer_id="));
    assert!(url.contains("port=6881"));
    assert!(url.contains("numwant=200"));
    assert!(url.contains("key=A1B2C3D4"));
    assert!(url.contains("event=started"));
}

#[test]
fn build_url_tracker_with_existing_query() {
    let params = test_params();
    let url = build_announce_url("http://tracker.test/announce?passkey=abc", "info_hash={infohash}", &params, true);
    assert!(url.contains("announce?passkey=abc&info_hash="));
}

#[test]
fn round_by_denominator_upload() {
    assert_eq!(round_by_denominator(123456789, 0x4000), 123453440);
    assert_eq!(round_by_denominator(0, 0x4000), 0);
    assert_eq!(round_by_denominator(16384, 0x4000), 16384);
    assert_eq!(round_by_denominator(16385, 0x4000), 16384);
}

#[test]
fn round_by_denominator_download() {
    assert_eq!(round_by_denominator(987654321, 0x10), 987654320);
    assert_eq!(round_by_denominator(16, 0x10), 16);
    assert_eq!(round_by_denominator(17, 0x10), 16);
}

#[test]
fn round_by_denominator_zero() {
    assert_eq!(round_by_denominator(100, 0), 100);
}

#[test]
fn uploaded_downloaded_are_rounded() {
    let params = AnnounceParams {
        info_hash: [0; 20],
        peer_id: [0; 20],
        port: 6881,
        uploaded: 100000,
        downloaded: 200000,
        left: 0,
        numwant: 50,
        key: "".into(),
        event: "".into(),
        local_ip: "".into(),
    };
    let url = build_announce_url("http://t.test/ann", "uploaded={uploaded}&downloaded={downloaded}", &params, true);
    assert!(url.contains("uploaded=98304"));
    assert!(url.contains("downloaded=200000"));
}

#[test]
fn empty_event_for_regular_announce() {
    let mut params = test_params();
    params.event = String::new();
    let url = build_announce_url("http://t/a", "event={event}&port={port}", &params, true);
    assert!(url.contains("event=&port=6881"));
}

#[test]
fn build_headers_basic() {
    let params = test_params();
    let template = "User-Agent: uTorrent/3600\r\nAccept-Encoding: gzip";
    let headers = build_headers(template, &params, true);
    assert_eq!(headers.len(), 2);
    assert_eq!(headers[0].0, "User-Agent");
    assert_eq!(headers[0].1, "uTorrent/3600");
    assert_eq!(headers[1].0, "Accept-Encoding");
    assert_eq!(headers[1].1, "gzip");
}

#[test]
fn build_headers_with_placeholders() {
    let params = test_params();
    let headers = build_headers("X-Port: {port}", &params, true);
    assert_eq!(headers.len(), 1);
    assert_eq!(headers[0].0, "X-Port");
    assert_eq!(headers[0].1, "6881");
}

#[test]
fn build_headers_empty_template() {
    let params = test_params();
    let headers = build_headers("", &params, true);
    assert!(headers.is_empty());
}

#[test]
fn localip_placeholder() {
    let params = test_params();
    let url = build_announce_url("http://t/a", "ip={localip}", &params, true);
    assert!(url.contains("ip=192.168.1.100"));
}

#[test]
fn announce_url_exact() {
    let params = test_params();
    let url = build_announce_url("http://t/a", "h={infohash}&u={uploaded}&x={unknown}&{", &params, false);
    assert_eq!(url, "http://t/a?h=%124Vx%9a%bc%de%f0%124Vx%9a%bc%de%f0%124Vx&u=123453440&x={unknown}&{");
}

#[test]
fn headers_skip_lines_without_colon_and_keep_raw_counts() {
    let params = test_params();
    let headers = build_headers("  \r\nno colon here\n X-Up :  {uploaded} \n", &params, true);
    assert_eq!(headers, vec![("X-Up".to_string(), "123456789".to_string())]);
}

// ---------------------------------------------------------------------------
// Announce responses
// ---------------------------------------------------------------------------

fn build_response(interval: i64, peers: BValue) -> Vec<u8> {
    encode(&dict(vec![(b"interval".to_vec(), BValue::Integer(interval)), (b"peers".to_vec(), peers)]))
}

#[test]
fn parse_compact_peers_basic() {
    let mut peers_data = Vec::new();
    peers_data.extend_from_slice(&[192, 168, 1, 1]);
    peers_data.extend_from_slice(&6881u16.to_be_bytes());
    peers_data.extend_from_slice(&[10, 0, 0, 1]);
    peers_data.extend_from_slice(&8080u16.to_be_bytes());
    let body = build_response(1800, BValue::String(peers_data));
    let resp = parse(&body).unwrap();
    assert_eq!(resp.interval, 1800);
    assert_eq!(resp.peers.len(), 2);
    assert_eq!(resp.peers[0].ip, [192, 168, 1, 1]);
    assert_eq!(resp.peers[0].port, 6881);
    assert_eq!(resp.peers[1].ip, [10, 0, 0, 1]);
    assert_eq!(resp.peers[1].port, 8080);
}

#[test]
fn parse_dict_peers() {
    let peer1 = dict(vec![
        (b"ip".to_vec(), BValue::String(b"192.168.1.1".to_vec())),
        (b"port".to_vec(), BValue::Integer(6881)),
        (b"peer id".to_vec(), BValue::String(b"-UT3600-xxxxxxxxxxxx".to_vec())),
    ]);
    let body = build_response(900, BValue::List(vec![peer1]));
    let resp = parse(&body).unwrap();
    assert_eq!(resp.interval, 900);
    assert_eq!(resp.peers.len(), 1);
    assert_eq!(resp.peers[0].ip, [192, 168, 1, 1]);
    assert_eq!(resp.peers[0].port, 6881);
    assert_eq!(resp.peers[0].peer_id.as_deref(), Some(b"-UT3600-xxxxxxxxxxxx".as_ref()));
}

#[test]
fn parse_failure_reason() {
    let body = encode(&dict(vec![(b"failure reason".to_vec(), BValue::String(b"torrent not registered".to_vec()))]));
    let err = parse(&body).unwrap_err();
    match err {
        TrackerResponseError::TrackerFailure(reason) => assert_eq!(reason, "torrent not registered"),
        other => panic!("expected TrackerFailure, got {other:?}"),
    }
}

#[test]
fn parse_complete_incomplete_downloaded() {
    let body = encode(&dict(vec![
        (b"complete".to_vec(), BValue::Integer(42)),
        (b"downloaded".to_vec(), BValue::Integer(1000)),
        (b"incomplete".to_vec(), BValue::Integer(7)),
        (b"interval".to_vec(), BValue::Integer(1800)),
        (b"peers".to_vec(), BValue::String(vec![])),
    ]));
    let resp = parse(&body).unwrap();
    assert_eq!(resp.complete, Some(42));
    assert_eq!(resp.incomplete, Some(7));
    assert_eq!(resp.downloaded, Some(1000));
}

#[test]
fn parse_min_interval() {
    let body = encode(&dict(vec![
        (b"interval".to_vec(), BValue::Integer(1800)),
        (b"min interval".to_vec(), BValue::Integer(900)),
        (b"peers".to_vec(), BValue::String(vec![])),
    ]));
    let resp = parse(&body).unwrap();
    assert_eq!(resp.interval, 1800);
    assert_eq!(resp.min_interval, Some(900));
}

#[test]
fn parse_warning_message() {
    let body = encode(&dict(vec![
        (b"interval".to_vec(), BValue::Integer(1800)),
        (b"peers".to_vec(), BValue::String(vec![])),
        (b"warning message".to_vec(), BValue::String(b"your ratio is low".to_vec())),
    ]));
    let resp = parse(&body).unwrap();
    assert_eq!(resp.warning_message.as_deref(), Some("your ratio is low"));
}

#[test]
fn parse_empty_peers() {
    let body = build_response(1800, BValue::String(vec![]));
    let resp = parse(&body).unwrap();
    assert!(resp.peers.is_empty());
}

#[test]
fn compact_peers_invalid_length() {
    let body = build_response(1800, BValue::String(vec![0; 7]));
    let err = parse(&body).unwrap_err();
    assert!(matches!(err, TrackerResponseError::InvalidField(_)));
    assert_eq!(err.message(), "invalid field: compact peers length 7 is not a multiple of 6");
}

#[test]
fn missing_interval() {
    let body = encode(&dict(vec![(b"peers".to_vec(), BValue::String(vec![]))]));
    let err = parse(&body).unwrap_err();
    assert!(matches!(err, TrackerResponseError::MissingField(_)));
}

#[test]
fn ipv4_parsing_follows_std() {
    assert_eq!(parse_ipv4("10.0.0.1"), Some([10, 0, 0, 1]));
    assert_eq!(parse_ipv4("255.255.255.255"), Some([255, 255, 255, 255]));
    assert_eq!(parse_ipv4("0.0.0.0"), Some([0, 0, 0, 0]));
    assert_eq!(parse_ipv4("256.0.0.1"), None);
    assert_eq!(parse_ipv4("01.0.0.1"), None);
    assert_eq!(parse_ipv4("1.2.3"), None);
    assert_eq!(parse_ipv4("1.2.3.4.5"), None);
    assert_eq!(parse_ipv4("1.2..4"), None);
    assert_eq!(parse_ipv4("a.b.c.d"), None);
    assert_eq!(parse_ipv4("1.2.3.4"), Some([1, 2, 3, 4]));
    assert_eq!(parse_ipv4("127.0.0.1"), Some([127, 0, 0, 1]));
    assert_eq!(parse_ipv4("192.168.001.1"), None);
    assert_eq!(parse_ipv4("1.2.3.04"), None);
    assert_eq!(parse_ipv4("+1.2.3.4"), None);
    assert_eq!(parse_ipv4(" 1.2.3.4"), None);
}

#[test]
fn dict_peer_errors() {
    let bad_ip = dict(vec![
        (b"ip".to_vec(), BValue::String(b"example.com".to_vec())),
        (b"port".to_vec(), BValue::Integer(1)),
    ]);
    let err = parse(&build_response(1, BValue::List(vec![bad_ip]))).unwrap_err();
    assert_eq!(err, TrackerResponseError::InvalidField("invalid peer IP: example.com".into()));
    let no_port = dict(vec![(b"ip".to_vec(), BValue::String(b"1.2.3.4".to_vec()))]);
    let err = parse(&build_response(1, BValue::List(vec![no_port]))).unwrap_err();
    assert_eq!(err, TrackerResponseError::MissingField("peer.port".into()));
    let err = parse(&build_response(1, BValue::Integer(3))).unwrap_err();
    assert_eq!(err.message(), "invalid field: peers must be a string (compact) or list (dict)");
}

#[test]
fn failure_reason_not_text() {
    let body = encode(&dict(vec![(b"failure reason".to_vec(), BValue::Integer(1))]));
    assert_eq!(parse(&body).unwrap_err(), TrackerResponseError::TrackerFailure("unknown failure".into()));
}

// ---------------------------------------------------------------------------
// Scrape
// ---------------------------------------------------------------------------

#[test]
fn announce_to_scrape_basic() {
    assert_eq!(
        announce_to_scrape_url("http://tracker.example.com/announce").unwrap(),
        "http://tracker.example.com/scrape"
    );
}

#[test]
fn announce_to_scrape_with_path() {
    assert_eq!(
        announce_to_scrape_url("http://tracker.example.com:6969/announce").unwrap(),
        "http://tracker.example.com:6969/scrape"
    );
}

#[test]
fn announce_to_scrape_with_passkey() {
    assert_eq!(
        announce_to_scrape_url("http://tracker.test/announce?passkey=abc123").unwrap(),
        "http://tracker.test/scrape?passkey=abc123"
    );
}

#[test]
fn announce_to_scrape_nested_path() {
    assert_eq!(
        announce_to_scrape_url("http://tracker.test/tracker/announce").unwrap(),
        "http://tracker.test/tracker/scrape"
    );
}

#[test]
fn announce_to_scrape_no_announce() {
    assert!(announce_to_scrape_url("http://tracker.test/something").is_err());
}

#[test]
fn announce_to_scrape_replaces_last() {
    assert_eq!(
        announce_to_scrape_url("http://a/announce/x/announce.php").unwrap(),
        "http://a/announce/x/scrape.php"
    );
}

#[test]
fn build_scrape_url_basic() {
    let hash = [0u8; 20];
    let url = build_scrape_url("http://tracker.test/scrape", &hash, true);
    assert!(url.starts_with("http://tracker.test/scrape?info_hash="));
}

#[test]
fn build_scrape_url_with_existing_query() {
    let hash = [0u8; 20];
    let url = build_scrape_url("http://tracker.test/scrape?passkey=abc", &hash, true);
    assert!(url.contains("scrape?passkey=abc&info_hash="));
}

#[test]
fn parse_scrape_response() {
    let hash = [0xABu8; 20];
    let torrent = dict(vec![
        (b"complete".to_vec(), BValue::Integer(42)),
        (b"downloaded".to_vec(), BValue::Integer(1000)),
        (b"incomplete".to_vec(), BValue::Integer(7)),
    ]);
    let files = dict(vec![(hash.to_vec(), torrent)]);
    let body = encode(&dict(vec![(b"files".to_vec(), files)]));
    let stats = scrape::parse(&body, &hash).unwrap();
    assert_eq!(stats.complete, 42);
    assert_eq!(stats.incomplete, 7);
    assert_eq!(stats.downloaded, 1000);
}

#[test]
fn parse_scrape_missing_hash() {
    let hash = [0xABu8; 20];
    let other_hash = [0xCDu8; 20];
    let torrent = dict(vec![
        (b"complete".to_vec(), BValue::Integer(1)),
        (b"incomplete".to_vec(), BValue::Integer(2)),
        (b"downloaded".to_vec(), BValue::Integer(3)),
    ]);
    let files = dict(vec![(other_hash.to_vec(), torrent)]);
    let body = encode(&dict(vec![(b"files".to_vec(), files)]));
    let err = scrape::parse(&body, &hash).unwrap_err();
    assert!(err.message().contains("not found"));
}

#[test]
fn parse_scrape_missing_fields_default_zero() {
    let hash = [0xABu8; 20];
    let torrent = dict(vec![(b"complete".to_vec(), BValue::Integer(5))]);
    let files = dict(vec![(hash.to_vec(), torrent)]);
    let body = encode(&dict(vec![(b"files".to_vec(), files)]));
    let stats = scrape::parse(&body, &hash).unwrap();
    assert_eq!(stats.complete, 5);
    assert_eq!(stats.incomplete, 0);
    assert_eq!(stats.downloaded, 0);
}

#[test]
fn scrape_error_messages() {
    let err = announce_to_scrape_url("http://x/y").unwrap_err();
    assert_eq!(err.message(), "cannot derive scrape URL from: http://x/y");
    let body = encode(&dict(vec![(b"a".to_vec(), BValue::Integer(1))]));
    assert_eq!(scrape::parse(&body, &[0; 20]).unwrap_err().message(), "invalid scrape response: missing 'files' dict");
}

#[test]
fn template_text_is_copied_unchanged_and_values_are_not_rescanned() {
    let params = test_params();
    let url = build_announce_url("http://t/announce", "a=é&h={host}", &params, false);
    assert_eq!(url, "http://t/announce?a=é&h={host}");
    let mut p2 = test_params();
    p2.key = "{port}".into();
    let url = build_announce_url("http://t/announce", "key={key}", &p2, false);
    assert!(url.ends_with("key={port}"));
    let headers = build_headers("X-Note: café {port}", &params, false);
    assert_eq!(headers, vec![("X-Note".to_string(), "café 6881".to_string())]);
}

fn percent_decode(s: &str) -> Vec<u8> {
    let b = s.as_bytes();
    let mut out = Vec::new();
    let mut i = 0;
    while i < b.len() {
        if b[i] == b'%' && i + 2 < b.len() && (b[i + 1] as char).is_ascii_hexdigit() && (b[i + 2] as char).is_ascii_hexdigit() {
            out.push(u8::from_str_radix(&s[i + 1..i + 3], 16).unwrap());
            i += 3;
        } else {
            out.push(b[i]);
            i += 1;
        }
    }
    out
}

#[test]
fn percent_decoding_inverts_url_encoding() {
    let inputs: Vec<Vec<u8>> = vec![vec![], b"abc-_.~".to_vec(), (0u8..=255).collect(), vec![0xff, b'%', b' ', 0x00]];
    for bytes in inputs {
        let upper = url_encode(&bytes, true);
        let lower = url_encode(&bytes, false);
        assert_eq!(percent_decode(&upper), bytes);
        assert_eq!(percent_decode(&lower), bytes);
        assert!(upper.eq_ignore_ascii_case(&lower));
    }
}
