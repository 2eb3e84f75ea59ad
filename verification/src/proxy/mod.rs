//! Proxy protocols: SOCKS4, SOCKS4a, SOCKS5, and HTTP CONNECT. This module
//! builds and parses the protocol messages; the connections themselves are
//! made by the application.
pub mod http;
pub mod socks4;
pub mod socks4a;
pub mod socks5;

use vstd::prelude::*;
use vstd::string::StringSliceAdditionalSpecFns;

use crate::network::tcp::{tcp_message, TcpError};
use crate::text::{ascii_chars, decimal};
use crate::tracker::response::{ipv4_octets, law_dotted_address, parse_ipv4};

verus! {

/// Errors that can occur during proxy operations.
#[derive(Debug)]
pub enum ProxyError {
    /// The proxy rejected the connection request.
    RequestRejected(String),
    /// Authentication with the proxy failed.
    AuthenticationFailed(String),
    /// A protocol-level error occurred.
    ProtocolError(String),
    /// Failed to connect to the proxy server itself.
    ConnectionFailed(TcpError),
    /// An I/O error occurred during proxy communication, with its message.
    Io(String),
}

/// The mathematical model of a [`ProxyError`].
pub enum ProxyFailure {
    RequestRejected(Seq<char>),
    AuthenticationFailed(Seq<char>),
    ProtocolError(Seq<char>),
    ConnectionFailed(TcpError),
    Io(Seq<char>),
}

impl View for ProxyError {
    type V = ProxyFailure;

    open spec fn view(&self) -> ProxyFailure {
        match self {
            ProxyError::RequestRejected(m) => ProxyFailure::RequestRejected(m@),
            ProxyError::AuthenticationFailed(m) => ProxyFailure::AuthenticationFailed(m@),
            ProxyError::ProtocolError(m) => ProxyFailure::ProtocolError(m@),
            ProxyError::ConnectionFailed(e) => ProxyFailure::ConnectionFailed(*e),
            ProxyError::Io(m) => ProxyFailure::Io(m@),
        }
    }
}

/// Whether `m` is the description of the proxy error `e`; that of a
/// failed connection to the proxy ends with the TCP error's description.
pub open spec fn proxy_message(e: ProxyFailure, m: Seq<char>) -> bool {
    match e {
        ProxyFailure::RequestRejected(s) => m == "proxy request rejected: "@ + s,
        ProxyFailure::AuthenticationFailed(s) => m == "proxy authentication failed: "@ + s,
        ProxyFailure::ProtocolError(s) => m == "proxy protocol error: "@ + s,
        ProxyFailure::ConnectionFailed(t) => {
            let p = "failed to connect to proxy: "@;
            p.is_prefix_of(m) && tcp_message(t, m.skip(p.len() as int))
        },
        ProxyFailure::Io(s) => m == "proxy io error: "@ + s,
    }
}

impl ProxyError {
    /// The human-readable description of the error.
    pub fn message(&self) -> (r: String)
        ensures
            proxy_message(self@, r@),
    {
        match self {
            ProxyError::RequestRejected(s) => String::from_str("proxy request rejected: ").concat(
                s.as_str(),
            ),
            ProxyError::AuthenticationFailed(s) => String::from_str(
                "proxy authentication failed: ",
            ).concat(s.as_str()),
            ProxyError::ProtocolError(s) => String::from_str("proxy protocol error: ").concat(
                s.as_str(),
            ),
            ProxyError::ConnectionFailed(t) => {
                let inner = t.message();
                let r = String::from_str("failed to connect to proxy: ").concat(inner.as_str());
                proof {
                    reveal_strlit("failed to connect to proxy: ");
                    assert(r@.skip("failed to connect to proxy: "@.len() as int) =~= inner@);
                }
                r
            },
            ProxyError::Io(s) => String::from_str("proxy io error: ").concat(s.as_str()),
        }
    }
}

/// Proxy configuration.
#[derive(Clone)]
pub enum ProxyConfig {
    /// Direct connection, no proxy.
    Direct,
    /// SOCKS4 proxy (requires resolved IPv4 for target).
    Socks4 { proxy_host: String, proxy_port: u16, user_id: String },
    /// SOCKS4a proxy (supports hostname-based targets).
    Socks4a { proxy_host: String, proxy_port: u16, user_id: String },
    /// SOCKS5 proxy (supports IPv4, IPv6, and domain targets).
    Socks5 { proxy_host: String, proxy_port: u16, credentials: Option<socks5::Credentials> },
    /// HTTP CONNECT proxy.
    HttpConnect { proxy_host: String, proxy_port: u16, credentials: Option<http::Credentials> },
}

/// The mathematical model of a [`ProxyConfig`]; credentials are
/// (username, password) pairs.
pub enum ProxyModel {
    Direct,
    Socks4 { host: Seq<char>, port: u16, user_id: Seq<char> },
    Socks4a { host: Seq<char>, port: u16, user_id: Seq<char> },
    Socks5 { host: Seq<char>, port: u16, credentials: Option<(Seq<char>, Seq<char>)> },
    HttpConnect { host: Seq<char>, port: u16, credentials: Option<(Seq<char>, Seq<char>)> },
}

impl View for ProxyConfig {
    type V = ProxyModel;

    open spec fn view(&self) -> ProxyModel {
        match self {
            ProxyConfig::Direct => ProxyModel::Direct,
            ProxyConfig::Socks4 { proxy_host, proxy_port, user_id } => ProxyModel::Socks4 {
                host: proxy_host@,
                port: *proxy_port,
                user_id: user_id@,
            },
            ProxyConfig::Socks4a { proxy_host, proxy_port, user_id } => ProxyModel::Socks4a {
                host: proxy_host@,
                port: *proxy_port,
                user_id: user_id@,
            },
            ProxyConfig::Socks5 { proxy_host, proxy_port, credentials } => ProxyModel::Socks5 {
                host: proxy_host@,
                port: *proxy_port,
                credentials: match credentials {
                    Some(c) => Some((c.username@, c.password@)),
                    None => None,
                },
            },
            ProxyConfig::HttpConnect { proxy_host, proxy_port, credentials } => {
                ProxyModel::HttpConnect {
                    host: proxy_host@,
                    port: *proxy_port,
                    credentials: match credentials {
                        Some(c) => Some((c.username@, c.password@)),
                        None => None,
                    },
                }
            },
        }
    }
}

/// The SOCKS5 address of a target host: its IPv4 address when it is one,
/// else its IPv6 address when it is one, else the host name.
pub open spec fn socks5_address_spec(host: Seq<char>, ipv6: Option<Seq<u8>>) -> socks5::AddressModel {
    match ipv4_octets(host) {
        Some(o) => socks5::AddressModel::Ipv4(o),
        None => match ipv6 {
            Some(o) => socks5::AddressModel::Ipv6(o),
            None => socks5::AddressModel::Domain(host),
        },
    }
}

/// Resolves a target host string into a SOCKS5 address type, given the
/// host's reading as an IPv6 address (`ipv6`, when it parses as one).
///
/// If the host parses as an IPv4 or IPv6 address, uses the appropriate type.
/// Otherwise treats it as a domain name.
pub fn resolve_socks5_address(host: &str, ipv6: Option<[u8; 16]>) -> (r: socks5::Address)
    ensures
        r@ == socks5_address_spec(
            host@,
            match ipv6 {
                Some(o) => Some(o@),
                None => None,
            },
        ),
{
    match parse_ipv4(host) {
        Some(v4) => socks5::Address::Ipv4(v4),
        None => match ipv6 {
            Some(v6) => socks5::Address::Ipv6(v6),
            None => socks5::Address::Domain(String::from_str(host)),
        },
    }
}

/// A dotted IPv4 host is sent as its four octets, whatever else it reads
/// as; a host that is not one is sent as its IPv6 address when it reads as
/// one, and as its name otherwise. In particular the dotted text of four
/// octets is sent as those octets.
pub proof fn law_socks5_address(host: Seq<char>, ipv6: Option<Seq<u8>>, a: u8, b: u8, c: u8, d: u8)
    ensures
        ipv4_octets(host) matches Some(o) ==> socks5_address_spec(host, ipv6) == socks5::AddressModel::Ipv4(
            o,
        ),
        ipv4_octets(host) is None && ipv6 is Some ==> socks5_address_spec(host, ipv6)
            == socks5::AddressModel::Ipv6(ipv6.unwrap()),
        ipv4_octets(host) is None && ipv6 is None ==> socks5_address_spec(host, ipv6)
            == socks5::AddressModel::Domain(host),
        socks5_address_spec(
            ascii_chars(decimal(a as nat)) + "."@ + ascii_chars(decimal(b as nat)) + "."@ + ascii_chars(
                decimal(c as nat),
            ) + "."@ + ascii_chars(decimal(d as nat)),
            ipv6,
        ) == socks5::AddressModel::Ipv4(seq![a, b, c, d]),
{
    law_dotted_address(a, b, c, d);
}

/// The model of a proxy configuration is of the same protocol, at the same
/// host and port, with the same user ID or credentials.
pub proof fn law_proxy_view(c: ProxyConfig)
    ensures
        c is Direct <==> c@ is Direct,
        c matches ProxyConfig::Socks4 { proxy_host, proxy_port, user_id } ==> c@ == (
        ProxyModel::Socks4 { host: proxy_host@, port: proxy_port, user_id: user_id@ }),
        c matches ProxyConfig::Socks4a { proxy_host, proxy_port, user_id } ==> c@ == (
        ProxyModel::Socks4a { host: proxy_host@, port: proxy_port, user_id: user_id@ }),
        c matches ProxyConfig::Socks5 { proxy_host, proxy_port, credentials } ==> c@ matches ProxyModel::Socks5 {
            host,
            port,
            credentials: m,
        } && host == proxy_host@ && port == proxy_port && (credentials is None <==> m is None),
        c matches ProxyConfig::HttpConnect { proxy_host, proxy_port, credentials } ==> c@ matches ProxyModel::HttpConnect {
            host,
            port,
            credentials: m,
        } && host == proxy_host@ && port == proxy_port && (credentials is None <==> m is None),
{
}

} // verus!
