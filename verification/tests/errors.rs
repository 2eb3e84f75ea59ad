use std::time::Duration;

use ratiomaster::bencode::BencodeError;
use ratiomaster::config::ConfigError;
use ratiomaster::engine::EngineError;
use ratiomaster::error::Error;
use ratiomaster::network::http::HttpError;
use ratiomaster::network::tcp::TcpError;
use ratiomaster::proxy::{ProxyConfig, ProxyError};
use ratiomaster::torrent::TorrentError;
use ratiomaster::tracker::client::HttpTrackerClient;
use ratiomaster::tracker::response::TrackerResponseError;
use ratiomaster::tracker::scrape::ScrapeError;

#[test]
fn tcp_error_messages() {
    assert_eq!(TcpError::ConnectionRefused("127.0.0.1:1".into()).message(), "connection refused: 127.0.0.1:1");
    assert_eq!(
        TcpError::DnsFailure { host: "nowhere.invalid".into(), source: "not found".into() }.message(),
        "DNS resolution failed for nowhere.invalid: not found"
    );
    assert_eq!(TcpError::Io("broken pipe".into()).message(), "tcp io error: broken pipe");
    assert_eq!(TcpError::Timeout(Duration::from_secs(5)).message(), "connection timed out after 5s");
    assert_eq!(TcpError::Timeout(Duration::from_millis(1500)).message(), "connection timed out after 1.5s");
}

#[test]
fn proxy_error_messages() {
    assert_eq!(ProxyError::RequestRejected("x".into()).message(), "proxy request rejected: x");
    assert_eq!(ProxyError::AuthenticationFailed("bad".into()).message(), "proxy authentication failed: bad");
    assert_eq!(ProxyError::ProtocolError("p".into()).message(), "proxy protocol error: p");
    assert_eq!(ProxyError::Io("eof".into()).message(), "proxy io error: eof");
    assert_eq!(
        ProxyError::ConnectionFailed(TcpError::ConnectionRefused("h:1".into())).message(),
        "failed to connect to proxy: connection refused: h:1"
    );
}

#[test]
fn http_error_messages() {
    assert_eq!(HttpError::Connection("c".into()).message(), "connection error: c");
    assert_eq!(HttpError::InvalidResponse("r".into()).message(), "invalid HTTP response: r");
    assert_eq!(HttpError::Io("i".into()).message(), "http io error: i");
    assert_eq!(HttpError::Timeout.message(), "http request timed out");
    assert_eq!(HttpError::Proxy(ProxyError::ProtocolError("p".into())).message(), "proxy error: proxy protocol error: p");
    assert_eq!(HttpError::Tcp(TcpError::Io("z".into())).message(), "tcp error: tcp io error: z");
}

#[test]
fn engine_error_messages() {
    assert_eq!(EngineError::Http(HttpError::Timeout).message(), "http error: http request timed out");
    assert_eq!(EngineError::TrackerFailure("banned".into()).message(), "tracker failure: banned");
    assert_eq!(
        EngineError::TrackerResponse(TrackerResponseError::MissingField("interval".into())).message(),
        "tracker response error: missing field: interval"
    );
    assert_eq!(EngineError::Io("bind".into()).message(), "io error: bind");
    assert_eq!(EngineError::MaxRetriesExceeded.message(), "maximum retry attempts exceeded");
}

#[test]
fn config_error_messages() {
    assert_eq!(ConfigError::Io("denied".into()).message(), "io error: denied");
    assert_eq!(ConfigError::Parse("line 1".into()).message(), "toml parse error: line 1");
    assert_eq!(ConfigError::Serialize("s".into()).message(), "toml serialize error: s");
    assert_eq!(ConfigError::Json("j".into()).message(), "json error: j");
}

#[test]
fn top_level_error_conversions_and_messages() {
    let e: Error = BencodeError::UnexpectedEof.into();
    assert_eq!(e.message(), "bencode error: unexpected end of input");
    let e: Error = TorrentError::MissingField("info".into()).into();
    assert_eq!(e.message(), "torrent error: missing required field: info");
    assert_eq!(Error::Io("x".into()).message(), "io error: x");
    let e: Error = TcpError::Io("y".into()).into();
    assert_eq!(e.message(), "tcp error: tcp io error: y");
    let e: Error = ProxyError::Io("z".into()).into();
    assert_eq!(e.message(), "proxy error: proxy io error: z");
    let e: Error = HttpError::Timeout.into();
    assert_eq!(e.message(), "http error: http request timed out");
    let e: Error = TrackerResponseError::TrackerFailure("no".into()).into();
    assert_eq!(e.message(), "tracker response error: tracker failure: no");
    let e: Error = ScrapeError::InvalidResponse("bad".into()).into();
    assert_eq!(e.message(), "scrape error: invalid scrape response: bad");
    let e: Error = EngineError::MaxRetriesExceeded.into();
    assert_eq!(e.message(), "engine error: maximum retry attempts exceeded");
    let e: Error = ConfigError::Json("eof".into()).into();
    assert_eq!(e.message(), "config error: json error: eof");
}

#[test]
fn http_tracker_client_keeps_settings() {
    let client = HttpTrackerClient::new(ProxyConfig::Direct, Duration::from_secs(30));
    assert!(matches!(client.proxy, ProxyConfig::Direct));
    assert_eq!(client.timeout, Duration::from_secs(30));
}
