use ratiomaster::proxy::http::{base64_encode, build_connect_request, connect_step, parse_status_line, ConnectStep};
use ratiomaster::proxy::socks5::{
    auth_request_after, build_auth_request, build_greeting, parse_auth_response, parse_connect_reply_header,
    parse_greeting_response, socks5_reply_message, Address, Credentials, ReplyTail,
};
use ratiomaster::proxy::{resolve_socks5_address, socks4, socks4a, ProxyConfig, ProxyError};

// ---------------------------------------------------------------------------
// SOCKS4 / SOCKS4a
// ---------------------------------------------------------------------------

#[test]
fn socks4_build_request_bytes() {
    let ip = [192, 168, 1, 1];
    let request = socks4::build_request(ip, 80, "user");
    assert_eq!(request[0], 0x04);
    assert_eq!(request[1], 0x01);
    assert_eq!(&request[2..4], &80u16.to_be_bytes());
    assert_eq!(&request[4..8], &[192, 168, 1, 1]);
    assert_eq!(&request[8..12], b"user");
    assert_eq!(request[12], 0x00);
    assert_eq!(request.len(), 13);
}

#[test]
fn socks4_build_request_empty_userid() {
    let ip = [10, 0, 0, 1];
    let request = socks4::build_request(ip, 443, "");
    assert_eq!(request.len(), 9);
    assert_eq!(request[8], 0x00);
}

#[test]
fn parse_response_success() {
    let response = [0x00, 0x5A, 0x00, 0x50, 192, 168, 1, 1];
    assert!(socks4::parse_response(&response).is_ok());
}

#[test]
fn parse_response_rejected() {
    let response = [0x00, 0x5B, 0x00, 0x00, 0, 0, 0, 0];
    assert!(socks4::parse_response(&response).is_err());
}

fn message(e: ProxyError) -> String {
    match e {
        ProxyError::RequestRejected(m) => format!("proxy request rejected: {m}"),
        ProxyError::AuthenticationFailed(m) => format!("proxy authentication failed: {m}"),
        ProxyError::ProtocolError(m) => format!("proxy protocol error: {m}"),
        other => format!("{other:?}"),
    }
}

#[test]
fn parse_response_identd_unreachable() {
    let response = [0x00, 0x5C, 0x00, 0x00, 0, 0, 0, 0];
    let err = socks4::parse_response(&response).unwrap_err();
    assert!(message(err).contains("identd unreachable"));
}

#[test]
fn parse_response_identd_mismatch() {
    let response = [0x00, 0x5D, 0x00, 0x00, 0, 0, 0, 0];
    let err = socks4::parse_response(&response).unwrap_err();
    assert!(message(err).contains("different user-id"));
}

#[test]
fn parse_response_unknown_code() {
    let response = [0x00, 0xFF, 0x00, 0x00, 0, 0, 0, 0];
    let err = socks4::parse_response(&response).unwrap_err();
    assert!(message(err).contains("unknown status"));
    let err = socks4::parse_response(&[0, 0x07, 0, 0, 0, 0, 0, 0]).unwrap_err();
    assert_eq!(message(err), "proxy request rejected: SOCKS4 unknown status: 0x07");
}

#[test]
fn socks4a_build_request_bytes() {
    let request = socks4a::build_request("example.com", 80, "user");
    assert_eq!(request[0], 0x04);
    assert_eq!(request[1], 0x01);
    assert_eq!(&request[2..4], &80u16.to_be_bytes());
    assert_eq!(&request[4..8], &[0, 0, 0, 1]);
    assert_eq!(&request[8..12], b"user");
    assert_eq!(request[12], 0x00);
    assert_eq!(&request[13..24], b"example.com");
    assert_eq!(request[24], 0x00);
    assert_eq!(request.len(), 25);
}

#[test]
fn socks4a_build_request_empty_userid() {
    let request = socks4a::build_request("tracker.example.org", 6969, "");
    assert_eq!(request[0], 0x04);
    assert_eq!(&request[4..8], &[0, 0, 0, 1]);
    assert_eq!(request[8], 0x00);
    let host_start = 9;
    let host_end = host_start + "tracker.example.org".len();
    assert_eq!(&request[host_start..host_end], b"tracker.example.org");
    assert_eq!(request[host_end], 0x00);
}

#[test]
fn hostname_mode_ip_format() {
    let request = socks4a::build_request("test.com", 443, "");
    assert_eq!(request[4], 0x00);
    assert_eq!(request[5], 0x00);
    assert_eq!(request[6], 0x00);
    assert!(request[7] > 0, "last byte must be > 0 for hostname mode");
}

// ---------------------------------------------------------------------------
// SOCKS5
// ---------------------------------------------------------------------------

#[test]
fn greeting_no_auth() {
    let msg = build_greeting(false);
    assert_eq!(msg, vec![0x05, 0x01, 0x00]);
}

#[test]
fn greeting_with_auth() {
    let msg = build_greeting(true);
    assert_eq!(msg, vec![0x05, 0x02, 0x00, 0x02]);
}

#[test]
fn parse_greeting_no_auth_ok() {
    assert!(parse_greeting_response(&[0x05, 0x00], false).is_ok());
}

#[test]
fn parse_greeting_auth_selected() {
    assert!(parse_greeting_response(&[0x05, 0x02], true).is_ok());
}

#[test]
fn parse_greeting_auth_required_but_not_offered() {
    assert!(parse_greeting_response(&[0x05, 0x02], false).is_err());
}

#[test]
fn parse_greeting_no_acceptable_method() {
    let result = parse_greeting_response(&[0x05, 0xFF], true);
    assert!(result.is_err());
    assert!(message(result.unwrap_err()).contains("no acceptable"));
}

#[test]
fn parse_greeting_wrong_version() {
    let result = parse_greeting_response(&[0x04, 0x00], false);
    assert!(result.is_err());
    assert_eq!(message(result.unwrap_err()), "proxy protocol error: expected SOCKS5 version 0x05, got 0x04");
}

#[test]
fn auth_request_bytes() {
    let creds = Credentials { username: "user".into(), password: "pass".into() };
    let req = build_auth_request(&creds).unwrap();
    assert_eq!(req[0], 0x01);
    assert_eq!(req[1], 4);
    assert_eq!(&req[2..6], b"user");
    assert_eq!(req[6], 4);
    assert_eq!(&req[7..11], b"pass");
}

#[test]
fn auth_request_rejects_long_username() {
    let creds = Credentials { username: "x".repeat(256), password: "pass".into() };
    assert!(build_auth_request(&creds).is_err());
}

#[test]
fn auth_request_rejects_long_password() {
    let creds = Credentials { username: "user".into(), password: "x".repeat(256) };
    let err = build_auth_request(&creds).unwrap_err();
    assert_eq!(message(err), "proxy protocol error: SOCKS5 password exceeds 255 bytes (256 bytes)");
}

#[test]
fn auth_response_success() {
    assert!(parse_auth_response(&[0x01, 0x00]).is_ok());
}

#[test]
fn auth_response_failure() {
    assert!(parse_auth_response(&[0x01, 0x01]).is_err());
}

#[test]
fn connect_request_ipv4() {
    let req = ratiomaster::proxy::socks5::build_connect_request(&Address::Ipv4([192, 168, 1, 1]), 80).unwrap();
    assert_eq!(req[0], 0x05);
    assert_eq!(req[1], 0x01);
    assert_eq!(req[2], 0x00);
    assert_eq!(req[3], 0x01);
    assert_eq!(&req[4..8], &[192, 168, 1, 1]);
    assert_eq!(&req[8..10], &80u16.to_be_bytes());
}

#[test]
fn connect_request_domain() {
    let req = ratiomaster::proxy::socks5::build_connect_request(&Address::Domain("example.com".into()), 443).unwrap();
    assert_eq!(req[0], 0x05);
    assert_eq!(req[3], 0x03);
    assert_eq!(req[4], 11);
    assert_eq!(&req[5..16], b"example.com");
    assert_eq!(&req[16..18], &443u16.to_be_bytes());
}

#[test]
fn connect_request_rejects_long_domain() {
    let long_domain = "x".repeat(256);
    assert!(ratiomaster::proxy::socks5::build_connect_request(&Address::Domain(long_domain), 443).is_err());
}

#[test]
fn connect_request_ipv6() {
    let octets: [u8; 16] = [0x20, 0x01, 0x0d, 0xb8, 0, 0, 0, 0, 0, 0, 0, 0, 0, 0, 0, 1];
    let req = ratiomaster::proxy::socks5::build_connect_request(&Address::Ipv6(octets), 8080).unwrap();
    assert_eq!(req[3], 0x04);
    assert_eq!(&req[4..20], &octets);
    assert_eq!(&req[20..22], &8080u16.to_be_bytes());
}

#[test]
fn reply_messages() {
    assert_eq!(socks5_reply_message(0x01), "general SOCKS server failure");
    assert_eq!(socks5_reply_message(0x05), "connection refused");
    assert!(socks5_reply_message(0xFE).contains("unknown"));
    assert_eq!(socks5_reply_message(0xFE), "unknown reply code: 0xfe");
}

#[test]
fn connect_reply_header_tails() {
    assert_eq!(parse_connect_reply_header(&[5, 0, 0, 1]).unwrap(), ReplyTail::Fixed(6));
    assert_eq!(parse_connect_reply_header(&[5, 0, 0, 3]).unwrap(), ReplyTail::LengthPrefixed);
    assert_eq!(parse_connect_reply_header(&[5, 0, 0, 4]).unwrap(), ReplyTail::Fixed(18));
    assert_eq!(
        message(parse_connect_reply_header(&[5, 5, 0, 1]).unwrap_err()),
        "proxy request rejected: connection refused"
    );
    assert_eq!(message(parse_connect_reply_header(&[5, 0, 0, 9]).unwrap_err()), "proxy protocol error: unknown ATYP: 0x09");
}

#[test]
fn resolve_socks5_address_ipv4() {
    match resolve_socks5_address("192.168.1.1", None) {
        Address::Ipv4(ip) => assert_eq!(ip, [192, 168, 1, 1]),
        other => panic!("expected Ipv4, got {other:?}"),
    }
}

#[test]
fn resolve_socks5_address_ipv6() {
    let mut loopback = [0u8; 16];
    loopback[15] = 1;
    match resolve_socks5_address("::1", Some(loopback)) {
        Address::Ipv6(ip) => assert_eq!(ip, loopback),
        other => panic!("expected Ipv6, got {other:?}"),
    }
}

#[test]
fn resolve_socks5_address_domain() {
    match resolve_socks5_address("example.com", None) {
        Address::Domain(host) => assert_eq!(host, "example.com"),
        other => panic!("expected Domain, got {other:?}"),
    }
}

#[test]
fn proxy_config_none_is_default() {
    let config = ProxyConfig::Direct;
    assert!(matches!(config, ProxyConfig::Direct));
}

// ---------------------------------------------------------------------------
// HTTP CONNECT
// ---------------------------------------------------------------------------

#[test]
fn build_request_no_auth() {
    let req = build_connect_request("example.com", 443, None);
    assert!(req.starts_with("CONNECT example.com:443 HTTP/1.1\r\n"));
    assert!(req.contains("Host: example.com:443\r\n"));
    assert!(req.ends_with("\r\n\r\n"));
    assert!(!req.contains("Proxy-Authorization"));
}

#[test]
fn build_request_with_auth() {
    let creds = ratiomaster::proxy::http::Credentials { username: "user".into(), password: "pass".into() };
    let req = build_connect_request("proxy.test", 8080, Some(&creds));
    assert!(req.contains("Proxy-Authorization: Basic "));
    assert!(req.contains("dXNlcjpwYXNz"));
}

#[test]
fn parse_status_200() {
    assert_eq!(parse_status_line("HTTP/1.1 200 Connection established\r\n").unwrap(), 200);
}

#[test]
fn parse_status_407() {
    assert_eq!(parse_status_line("HTTP/1.1 407 Proxy Authentication Required\r\n").unwrap(), 407);
}

#[test]
fn parse_status_invalid() {
    assert!(parse_status_line("garbage").is_err());
    assert_eq!(message(parse_status_line("garbage\n").unwrap_err()), "proxy protocol error: invalid HTTP status line: \"garbage\\n\"");
}

#[test]
fn base64_encode_basic() {
    assert_eq!(base64_encode("user:pass"), "dXNlcjpwYXNz");
    assert_eq!(base64_encode(""), "");
    assert_eq!(base64_encode("a"), "YQ==");
    assert_eq!(base64_encode("ab"), "YWI=");
    assert_eq!(base64_encode("abc"), "YWJj");
}

#[test]
fn connect_steps() {
    assert_eq!(connect_step(200, false, false).unwrap(), ConnectStep::Established);
    assert_eq!(connect_step(407, false, true).unwrap(), ConnectStep::RetryWithAuth);
    assert_eq!(
        message(connect_step(407, false, false).unwrap_err()),
        "proxy authentication failed: proxy requires authentication (407) but no credentials provided"
    );
    assert_eq!(message(connect_step(403, true, true).unwrap_err()), "proxy authentication failed: proxy authentication failed with status 403");
    assert_eq!(message(connect_step(502, false, true).unwrap_err()), "proxy request rejected: HTTP CONNECT failed with status 502");
}

#[test]
fn auth_request_follows_the_servers_choice() {
    let creds = Credentials { username: "u".into(), password: "pw".into() };
    assert!(matches!(auth_request_after(0x00, Some(&creds)), Ok(None)));
    assert!(matches!(auth_request_after(0x00, None), Ok(None)));
    assert_eq!(auth_request_after(0x02, Some(&creds)).unwrap(), Some(vec![0x01, 1, b'u', 2, b'p', b'w']));
    match auth_request_after(0x02, None) {
        Err(ProxyError::AuthenticationFailed(m)) => {
            assert_eq!(m, "server requires auth but no credentials provided")
        }
        _ => panic!("expected an authentication failure"),
    }
}

#[test]
fn socks4_select_ipv4_skips_ipv6() {
    let addrs = vec![None, Some([10, 0, 0, 1]), Some([192, 168, 1, 1])];
    assert_eq!(socks4::select_ipv4("tracker.example", &addrs).unwrap(), [10, 0, 0, 1]);
}

#[test]
fn socks4_select_ipv4_none_found() {
    let addrs = vec![None, None];
    match socks4::select_ipv4("v6only.example", &addrs) {
        Err(ProxyError::ProtocolError(m)) => {
            assert_eq!(m, "SOCKS4 requires IPv4 but no IPv4 address found for v6only.example");
        }
        _ => panic!("expected a protocol error"),
    }
    assert!(socks4::select_ipv4("empty.example", &[]).is_err());
}
