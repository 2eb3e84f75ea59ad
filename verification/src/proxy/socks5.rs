//! SOCKS5 proxy messages (RFC 1928, RFC 1929).
//!
//! Three-phase protocol:
//! 1. Greeting: client sends supported auth methods, server picks one
//! 2. Authentication: if required (RFC 1929 username/password)
//! 3. Connect: client sends target address, server establishes tunnel
//!
//! Supported address types: IPv4 (0x01), Domain (0x03), IPv6 (0x04).
use vstd::prelude::*;
use vstd::string::StringSliceAdditionalSpecFns;
use vstd::utf8::encode_utf8;

use super::socks4::{port_be, push_port_be};
use super::{ProxyError, ProxyFailure};
use crate::text::{
    append_bytes, ascii_chars, byte_hex_prefixed, decimal, push_byte_hex_prefixed, push_decimal,
};

verus! {

/// SOCKS5 authentication credentials.
#[derive(Clone)]
pub struct Credentials {
    pub username: String,
    pub password: String,
}

/// Target address for SOCKS5 CONNECT.
#[derive(Debug, Clone)]
pub enum Address {
    /// An IPv4 address, as its four octets.
    Ipv4([u8; 4]),
    Domain(String),
    /// An IPv6 address, as its sixteen octets.
    Ipv6([u8; 16]),
}

/// The mathematical model of an [`Address`].
pub enum AddressModel {
    Ipv4(Seq<u8>),
    Domain(Seq<char>),
    Ipv6(Seq<u8>),
}

impl View for Address {
    type V = AddressModel;

    open spec fn view(&self) -> AddressModel {
        match self {
            Address::Ipv4(o) => AddressModel::Ipv4(o@),
            Address::Domain(h) => AddressModel::Domain(h@),
            Address::Ipv6(o) => AddressModel::Ipv6(o@),
        }
    }
}

/// What the rest of a CONNECT reply holds after its four-byte header.
#[derive(Debug, Clone, Copy, PartialEq, Eq)]
pub enum ReplyTail {
    /// A fixed number of bytes (bound address and port).
    Fixed(usize),
    /// A length byte, then that many bytes of domain and two of port.
    LengthPrefixed,
}

// ---------------------------------------------------------------------------
// Specification
// ---------------------------------------------------------------------------

/// The greeting: version 5 and the offered methods (no auth, and
/// username/password when `with_auth`).
pub open spec fn greeting_spec(with_auth: bool) -> Seq<u8> {
    if with_auth {
        seq![0x05u8, 0x02u8, 0x00u8, 0x02u8]
    } else {
        seq![0x05u8, 0x01u8, 0x00u8]
    }
}

/// What the server's greeting reply says.
pub open spec fn greeting_response_spec(response: Seq<u8>, auth_offered: bool) -> Result<
    (),
    ProxyFailure,
> {
    if response[0] != 0x05 {
        Err(
            ProxyFailure::ProtocolError(
                "expected SOCKS5 version 0x05, got "@ + byte_hex_prefixed(response[0]),
            ),
        )
    } else if response[1] == 0x00 {
        Ok(())
    } else if response[1] == 0x02 && auth_offered {
        Ok(())
    } else if response[1] == 0x02 {
        Err(ProxyFailure::AuthenticationFailed("server requires authentication but none provided"@))
    } else if response[1] == 0xFF {
        Err(ProxyFailure::AuthenticationFailed("no acceptable authentication method"@))
    } else {
        Err(ProxyFailure::ProtocolError("unsupported auth method: "@ + byte_hex_prefixed(response[1])))
    }
}

/// The decimal text of a number.
pub open spec fn dec(n: nat) -> Seq<char> {
    ascii_chars(decimal(n))
}

/// The username/password request, refused when a field exceeds 255 bytes.
pub open spec fn auth_request_spec(username: Seq<u8>, password: Seq<u8>) -> Result<
    Seq<u8>,
    ProxyFailure,
> {
    if username.len() > 255 {
        Err(
            ProxyFailure::ProtocolError(
                "SOCKS5 username exceeds 255 bytes ("@ + dec(username.len()) + " bytes)"@,
            ),
        )
    } else if password.len() > 255 {
        Err(
            ProxyFailure::ProtocolError(
                "SOCKS5 password exceeds 255 bytes ("@ + dec(password.len()) + " bytes)"@,
            ),
        )
    } else {
        Ok(
            seq![0x01u8, username.len() as u8] + username + seq![password.len() as u8]
                + password,
        )
    }
}

/// What the server's authentication reply says.
pub open spec fn auth_response_spec(response: Seq<u8>) -> Result<(), ProxyFailure> {
    if response[1] != 0x00 {
        Err(ProxyFailure::AuthenticationFailed("username/password authentication failed"@))
    } else {
        Ok(())
    }
}

/// The CONNECT request, refused for a domain over 255 bytes.
pub open spec fn connect_request_spec(target: AddressModel, port: u16) -> Result<
    Seq<u8>,
    ProxyFailure,
> {
    let head = seq![0x05u8, 0x01u8, 0x00u8];
    match target {
        AddressModel::Ipv4(o) => Ok(head + seq![0x01u8] + o + port_be(port)),
        AddressModel::Domain(h) => {
            let b = encode_utf8(h);
            if b.len() > 255 {
                Err(
                    ProxyFailure::ProtocolError(
                        "SOCKS5 domain exceeds 255 bytes ("@ + dec(b.len()) + " bytes)"@,
                    ),
                )
            } else {
                Ok(head + seq![0x03u8, b.len() as u8] + b + port_be(port))
            }
        },
        AddressModel::Ipv6(o) => Ok(head + seq![0x04u8] + o + port_be(port)),
    }
}

/// The text of a reply code.
pub open spec fn reply_message_spec(code: u8) -> Seq<char> {
    if code == 0x01 {
        "general SOCKS server failure"@
    } else if code == 0x02 {
        "connection not allowed by ruleset"@
    } else if code == 0x03 {
        "network unreachable"@
    } else if code == 0x04 {
        "host unreachable"@
    } else if code == 0x05 {
        "connection refused"@
    } else if code == 0x06 {
        "TTL expired"@
    } else if code == 0x07 {
        "command not supported"@
    } else if code == 0x08 {
        "address type not supported"@
    } else {
        "unknown reply code: "@ + byte_hex_prefixed(code)
    }
}

/// What the four-byte header of a CONNECT reply says, and what follows it.
pub open spec fn reply_header_spec(header: Seq<u8>) -> Result<ReplyTail, ProxyFailure> {
    if header[0] != 0x05 {
        Err(ProxyFailure::ProtocolError("expected SOCKS5 version, got "@ + byte_hex_prefixed(header[0])))
    } else if header[1] != 0x00 {
        Err(ProxyFailure::RequestRejected(reply_message_spec(header[1])))
    } else if header[3] == 0x01 {
        Ok(ReplyTail::Fixed(6))
    } else if header[3] == 0x03 {
        Ok(ReplyTail::LengthPrefixed)
    } else if header[3] == 0x04 {
        Ok(ReplyTail::Fixed(18))
    } else {
        Err(ProxyFailure::ProtocolError("unknown ATYP: "@ + byte_hex_prefixed(header[3])))
    }
}

// ---------------------------------------------------------------------------
// Implementation
// ---------------------------------------------------------------------------

/// Builds the SOCKS5 greeting message.
///
/// `VER(0x05) | NMETHODS(1-2) | METHODS...`
pub fn build_greeting(with_auth: bool) -> (r: Vec<u8>)
    ensures
        r@ == greeting_spec(with_auth),
{
    if with_auth {
        let v = vec![0x05u8, 0x02u8, 0x00u8, 0x02u8];
        assert(v@ =~= greeting_spec(with_auth));
        v
    } else {
        let v = vec![0x05u8, 0x01u8, 0x00u8];
        assert(v@ =~= greeting_spec(with_auth));
        v
    }
}

/// Parses the server's greeting response.
pub fn parse_greeting_response(response: &[u8; 2], auth_offered: bool) -> (r: Result<(), ProxyError>)
    ensures
        match greeting_response_spec(response@, auth_offered) {
            Ok(()) => r is Ok,
            Err(e) => r matches Err(x) && x@ == e,
        },
{
    if response[0] != 0x05 {
        let mut msg = String::from_str("expected SOCKS5 version 0x05, got ");
        push_byte_hex_prefixed(&mut msg, response[0]);
        return Err(ProxyError::ProtocolError(msg));
    }
    let method = response[1];
    if method == 0x00 {
        Ok(())
    } else if method == 0x02 && auth_offered {
        Ok(())
    } else if method == 0x02 {
        Err(
            ProxyError::AuthenticationFailed(
                String::from_str("server requires authentication but none provided"),
            ),
        )
    } else if method == 0xFF {
        Err(ProxyError::AuthenticationFailed(String::from_str("no acceptable authentication method")))
    } else {
        let mut msg = String::from_str("unsupported auth method: ");
        push_byte_hex_prefixed(&mut msg, method);
        Err(ProxyError::ProtocolError(msg))
    }
}

/// Builds the RFC 1929 username/password authentication request.
///
/// `VER(0x01) | ULEN(1) | UNAME(1-255) | PLEN(1) | PASSWD(1-255)`
pub fn build_auth_request(credentials: &Credentials) -> (r: Result<Vec<u8>, ProxyError>)
    ensures
        match auth_request_spec(encode_utf8(credentials.username@), encode_utf8(credentials.password@)) {
            Ok(m) => r matches Ok(x) && x@ == m,
            Err(e) => r matches Err(x) && x@ == e,
        },
{
    let user = credentials.username.as_str().as_bytes();
    let pass = credentials.password.as_str().as_bytes();
    let ulen = user.len();
    let plen = pass.len();
    if ulen > 255 {
        let mut msg = String::from_str("SOCKS5 username exceeds 255 bytes (");
        push_decimal(&mut msg, ulen as u64);
        msg.append(" bytes)");
        return Err(ProxyError::ProtocolError(msg));
    }
    if plen > 255 {
        let mut msg = String::from_str("SOCKS5 password exceeds 255 bytes (");
        push_decimal(&mut msg, plen as u64);
        msg.append(" bytes)");
        return Err(ProxyError::ProtocolError(msg));
    }
    let mut buf: Vec<u8> = Vec::new();
    buf.push(0x01);
    buf.push(ulen as u8);
    append_bytes(&mut buf, user);
    buf.push(plen as u8);
    append_bytes(&mut buf, pass);
    assert(buf@ =~= seq![0x01u8, ulen as u8] + user@ + seq![plen as u8] + pass@);
    Ok(buf)
}

/// The authentication request to send once the server has chosen its
/// method (`choice`, the second byte of its greeting reply): none unless it
/// chose username/password (`0x02`); then the request for the credentials,
/// or an error when none are configured.
pub fn auth_request_after(choice: u8, credentials: Option<&Credentials>) -> (r: Result<
    Option<Vec<u8>>,
    ProxyError,
>)
    ensures
        choice != 0x02 ==> r matches Ok(None),
        choice == 0x02 ==> match credentials {
            None => r matches Err(e) && e@ == ProxyFailure::AuthenticationFailed(
                "server requires auth but no credentials provided"@,
            ),
            Some(c) => match auth_request_spec(encode_utf8(c.username@), encode_utf8(c.password@)) {
                Ok(m) => r matches Ok(Some(x)) && x@ == m,
                Err(e) => r matches Err(x) && x@ == e,
            },
        },
{
    if choice != 0x02 {
        return Ok(None);
    }
    match credentials {
        None => Err(
            ProxyError::AuthenticationFailed(
                String::from_str("server requires auth but no credentials provided"),
            ),
        ),
        Some(c) => match build_auth_request(c) {
            Ok(m) => Ok(Some(m)),
            Err(e) => Err(e),
        },
    }
}

/// Parses the authentication response.
pub fn parse_auth_response(response: &[u8; 2]) -> (r: Result<(), ProxyError>)
    ensures
        match auth_response_spec(response@) {
            Ok(()) => r is Ok,
            Err(e) => r matches Err(x) && x@ == e,
        },
{
    if response[1] != 0x00 {
        return Err(
            ProxyError::AuthenticationFailed(
                String::from_str("username/password authentication failed"),
            ),
        );
    }
    Ok(())
}

/// Builds the SOCKS5 CONNECT request.
///
/// `VER(0x05) | CMD(0x01) | RSV(0x00) | ATYP | DST.ADDR | DST.PORT`
pub fn build_connect_request(target: &Address, port: u16) -> (r: Result<Vec<u8>, ProxyError>)
    ensures
        match connect_request_spec(target@, port) {
            Ok(m) => r matches Ok(x) && x@ == m,
            Err(e) => r matches Err(x) && x@ == e,
        },
{
    let mut buf: Vec<u8> = Vec::new();
    buf.push(0x05);
    buf.push(0x01);
    buf.push(0x00);
    match target {
        Address::Ipv4(ip) => {
            buf.push(0x01);
            append_bytes(&mut buf, ip.as_slice());
        },
        Address::Domain(host) => {
            let b = host.as_str().as_bytes();
            let len = b.len();
            if len > 255 {
                let mut msg = String::from_str("SOCKS5 domain exceeds 255 bytes (");
                push_decimal(&mut msg, len as u64);
                msg.append(" bytes)");
                return Err(ProxyError::ProtocolError(msg));
            }
            buf.push(0x03);
            buf.push(len as u8);
            append_bytes(&mut buf, b);
        },
        Address::Ipv6(ip) => {
            buf.push(0x04);
            append_bytes(&mut buf, ip.as_slice());
        },
    }
    push_port_be(&mut buf, port);
    proof {
        match connect_request_spec(target@, port) {
            Ok(m) => {
                assert(buf@ =~= m);
            },
            Err(_) => {},
        }
    }
    Ok(buf)
}

/// The text of a SOCKS5 reply code.
pub fn socks5_reply_message(code: u8) -> (r: String)
    ensures
        r@ == reply_message_spec(code),
{
    if code == 0x01 {
        String::from_str("general SOCKS server failure")
    } else if code == 0x02 {
        String::from_str("connection not allowed by ruleset")
    } else if code == 0x03 {
        String::from_str("network unreachable")
    } else if code == 0x04 {
        String::from_str("host unreachable")
    } else if code == 0x05 {
        String::from_str("connection refused")
    } else if code == 0x06 {
        String::from_str("TTL expired")
    } else if code == 0x07 {
        String::from_str("command not supported")
    } else if code == 0x08 {
        String::from_str("address type not supported")
    } else {
        let mut msg = String::from_str("unknown reply code: ");
        push_byte_hex_prefixed(&mut msg, code);
        msg
    }
}

/// Parses the four-byte header of a CONNECT reply:
/// `VER | REP | RSV | ATYP`, and says what follows it.
pub fn parse_connect_reply_header(header: &[u8; 4]) -> (r: Result<ReplyTail, ProxyError>)
    ensures
        match reply_header_spec(header@) {
            Ok(t) => r == Ok::<ReplyTail, ProxyError>(t),
            Err(e) => r matches Err(x) && x@ == e,
        },
{
    if header[0] != 0x05 {
        let mut msg = String::from_str("expected SOCKS5 version, got ");
        push_byte_hex_prefixed(&mut msg, header[0]);
        return Err(ProxyError::ProtocolError(msg));
    }
    if header[1] != 0x00 {
        return Err(ProxyError::RequestRejected(socks5_reply_message(header[1])));
    }
    if header[3] == 0x01 {
        Ok(ReplyTail::Fixed(6))
    } else if header[3] == 0x03 {
        Ok(ReplyTail::LengthPrefixed)
    } else if header[3] == 0x04 {
        Ok(ReplyTail::Fixed(18))
    } else {
        let mut msg = String::from_str("unknown ATYP: ");
        push_byte_hex_prefixed(&mut msg, header[3]);
        Err(ProxyError::ProtocolError(msg))
    }
}

/// The greeting offers no authentication (method 0), and username and
/// password (method 2) exactly when asked to, after version 5 and the count
/// of methods offered.
pub proof fn law_greeting(with_auth: bool)
    ensures
        ({
            let g = greeting_spec(with_auth);
            &&& g.len() >= 3 && g[0] == 5 && g[1] == g.len() - 2 && g[2] == 0
            &&& with_auth <==> (g.len() == 4 && g[3] == 2)
        }),
{
}

/// A username/password request is version 1, then the username and the
/// password, each after its length in one byte; a username or password of
/// more than 255 bytes cannot be sent.
pub proof fn law_auth_request(username: Seq<u8>, password: Seq<u8>)
    ensures
        auth_request_spec(username, password) is Err <==> (username.len() > 255 || password.len() > 255),
        auth_request_spec(username, password) is Ok ==> ({
            let r = auth_request_spec(username, password)->Ok_0;
            let u = username.len() as int;
            let w = password.len() as int;
            &&& r.len() == 3 + u + w
            &&& r[0] == 1 && r[1] == u
            &&& r.subrange(2, 2 + u) == username
            &&& r[2 + u] == w
            &&& r.subrange(3 + u, 3 + u + w) == password
        }),
{
    if username.len() <= 255 && password.len() <= 255 {
        let r = auth_request_spec(username, password)->Ok_0;
        let u = username.len() as int;
        let w = password.len() as int;
        assert(r.subrange(2, 2 + u) =~= username);
        assert(r.subrange(3 + u, 3 + u + w) =~= password);
    }
}

/// A CONNECT request is version 5, command 1, a reserved zero, then the
/// address with its type (1 and four bytes for IPv4; 3, a length byte and
/// the UTF-8 name for a domain; 4 and sixteen bytes for IPv6), then the port
/// in two bytes, high byte first. Only a domain of more than 255 bytes
/// cannot be sent.
pub proof fn law_connect_request(target: AddressModel, port: u16)
    requires
        target matches AddressModel::Ipv4(o) ==> o.len() == 4,
        target matches AddressModel::Ipv6(o) ==> o.len() == 16,
    ensures
        connect_request_spec(target, port) is Err <==> (target matches AddressModel::Domain(h)
            && encode_utf8(h).len() > 255),
        connect_request_spec(target, port) is Ok ==> ({
            let r = connect_request_spec(target, port)->Ok_0;
            let a = (r.len() - 6) as int;
            &&& r.len() >= 6 && r[0] == 5 && r[1] == 1 && r[2] == 0
            &&& r[r.len() - 2] * 256 + r[r.len() - 1] == port
            &&& match target {
                AddressModel::Ipv4(o) => r[3] == 1 && r.subrange(4, 4 + a) == o,
                AddressModel::Domain(h) => r[3] == 3 && r[4] == encode_utf8(h).len() && r.subrange(
                    5,
                    4 + a,
                ) == encode_utf8(h),
                AddressModel::Ipv6(o) => r[3] == 4 && r.subrange(4, 4 + a) == o,
            }
        }),
{
    if connect_request_spec(target, port) is Ok {
        let r = connect_request_spec(target, port)->Ok_0;
        let a = (r.len() - 6) as int;
        match target {
            AddressModel::Ipv4(o) => {
                assert(r.subrange(4, 4 + a) =~= o);
            },
            AddressModel::Domain(h) => {
                assert(r.subrange(5, 4 + a) =~= encode_utf8(h));
            },
            AddressModel::Ipv6(o) => {
                assert(r.subrange(4, 4 + a) =~= o);
            },
        }
    }
}

/// A CONNECT reply header from a SOCKS5 server that grants the request says
/// how much of the bound address follows: four address bytes and the port
/// for type 1, sixteen and the port for type 4, a length-prefixed name for
/// type 3; any other reply code is a refusal with that code's text, and any
/// other version or address type is a protocol error.
pub proof fn law_reply_header(header: Seq<u8>)
    requires
        header.len() == 4,
    ensures
        header[0] != 5 ==> reply_header_spec(header) matches Err(ProxyFailure::ProtocolError(_)),
        header[0] == 5 && header[1] != 0 ==> reply_header_spec(header) == Err::<ReplyTail, ProxyFailure>(
            ProxyFailure::RequestRejected(reply_message_spec(header[1])),
        ),
        header[0] == 5 && header[1] == 0 && header[3] == 1 ==> reply_header_spec(header) == Ok::<
            ReplyTail,
            ProxyFailure,
        >(ReplyTail::Fixed(6usize)),
        header[0] == 5 && header[1] == 0 && header[3] == 4 ==> reply_header_spec(header) == Ok::<
            ReplyTail,
            ProxyFailure,
        >(ReplyTail::Fixed(18usize)),
        header[0] == 5 && header[1] == 0 && header[3] == 3 ==> reply_header_spec(header) == Ok::<
            ReplyTail,
            ProxyFailure,
        >(ReplyTail::LengthPrefixed),
        header[0] == 5 && header[1] == 0 && header[3] != 1 && header[3] != 3 && header[3] != 4
            ==> reply_header_spec(header) matches Err(ProxyFailure::ProtocolError(_)),
{
}

/// A SOCKS5 server's choice of method is accepted when it is no
/// authentication, or username and password when those were offered; a
/// reply of another version is a protocol error, and a refusal of every
/// method, or a demand for credentials not offered, is an authentication
/// failure. An authentication reply succeeds exactly when its status byte
/// is 0.
pub proof fn law_method_replies(response: Seq<u8>, auth_offered: bool)
    requires
        response.len() == 2,
    ensures
        response[0] != 5 ==> greeting_response_spec(response, auth_offered) matches Err(
            ProxyFailure::ProtocolError(_),
        ),
        response[0] == 5 ==> (greeting_response_spec(response, auth_offered) is Ok <==> (response[1]
            == 0 || (response[1] == 2 && auth_offered))),
        response[0] == 5 && (response[1] == 0xFF || (response[1] == 2 && !auth_offered))
            ==> greeting_response_spec(response, auth_offered) matches Err(
            ProxyFailure::AuthenticationFailed(_),
        ),
        auth_response_spec(response) is Ok <==> response[1] == 0,
{
}

} // verus!
