//! SOCKS4 proxy messages.
//!
//! Protocol:
//! ```text
//! Client -> Proxy:
//!   VER(0x04) | CMD(0x01=CONNECT) | DSTPORT(2 bytes) | DSTIP(4 bytes) | USERID | NULL(0x00)
//!
//! Proxy -> Client:
//!   NULL(0x00) | STATUS | DSTPORT(2 bytes) | DSTIP(4 bytes)
//!   STATUS 0x5A = request granted
//! ```
use vstd::prelude::*;
use vstd::string::StringSliceAdditionalSpecFns;

use super::{ProxyError, ProxyFailure};
use crate::text::{append_bytes, byte_hex_prefixed, push_byte_hex_prefixed};

verus! {

/// The two bytes of a port, big-endian.
pub open spec fn port_be(port: u16) -> Seq<u8> {
    seq![(port / 256) as u8, (port % 256) as u8]
}

/// The SOCKS4 CONNECT request.
pub open spec fn request_spec(ip: Seq<u8>, port: u16, user_id: Seq<u8>) -> Seq<u8> {
    seq![0x04u8, 0x01u8] + port_be(port) + ip + user_id + seq![0x00u8]
}

/// What a SOCKS4 (and SOCKS4a) reply says: granted, or the reason of the
/// refusal.
pub open spec fn response_spec(response: Seq<u8>) -> Result<(), ProxyFailure> {
    let code = response[1];
    if code == 0x5A {
        Ok(())
    } else if code == 0x5B {
        Err(ProxyFailure::RequestRejected("request rejected or failed"@))
    } else if code == 0x5C {
        Err(ProxyFailure::RequestRejected("request rejected: client identd unreachable"@))
    } else if code == 0x5D {
        Err(ProxyFailure::RequestRejected("request rejected: identd reports different user-id"@))
    } else {
        Err(ProxyFailure::RequestRejected("SOCKS4 unknown status: "@ + byte_hex_prefixed(code)))
    }
}

/// Appends a port, big-endian.
pub fn push_port_be(buf: &mut Vec<u8>, port: u16)
    ensures
        final(buf)@ == old(buf)@ + port_be(port),
{
    let ghost b0 = buf@;
    buf.push((port / 256) as u8);
    buf.push((port % 256) as u8);
    assert(buf@ =~= b0 + port_be(port));
}

/// Builds the SOCKS4 CONNECT request bytes.
pub fn build_request(target_ip: [u8; 4], target_port: u16, user_id: &str) -> (r: Vec<u8>)
    ensures
        r@ == request_spec(target_ip@, target_port, user_id.spec_bytes()),
{
    let mut buf: Vec<u8> = Vec::new();
    buf.push(0x04);
    buf.push(0x01);
    push_port_be(&mut buf, target_port);
    append_bytes(&mut buf, target_ip.as_slice());
    append_bytes(&mut buf, user_id.as_bytes());
    buf.push(0x00);
    assert(buf@ =~= request_spec(target_ip@, target_port, user_id.spec_bytes()));
    buf
}

/// Parses the 8-byte SOCKS4 response.
pub fn parse_response(response: &[u8; 8]) -> (r: Result<(), ProxyError>)
    ensures
        match response_spec(response@) {
            Ok(()) => r is Ok,
            Err(e) => r matches Err(x) && x@ == e,
        },
{
    let code = response[1];
    if code == 0x5A {
        Ok(())
    } else if code == 0x5B {
        Err(ProxyError::RequestRejected(String::from_str("request rejected or failed")))
    } else if code == 0x5C {
        Err(
            ProxyError::RequestRejected(
                String::from_str("request rejected: client identd unreachable"),
            ),
        )
    } else if code == 0x5D {
        Err(
            ProxyError::RequestRejected(
                String::from_str("request rejected: identd reports different user-id"),
            ),
        )
    } else {
        let mut msg = String::from_str("SOCKS4 unknown status: ");
        push_byte_hex_prefixed(&mut msg, code);
        Err(ProxyError::RequestRejected(msg))
    }
}

/// The first IPv4 address among resolved addresses, where each address is
/// its four octets or `None` for an IPv6 address.
pub open spec fn first_ipv4_spec(addrs: Seq<Option<[u8; 4]>>) -> Option<[u8; 4]>
    decreases addrs.len(),
{
    if addrs.len() == 0 {
        None
    } else if addrs[0] is Some {
        addrs[0]
    } else {
        first_ipv4_spec(addrs.drop_first())
    }
}

/// The message of the error for a host that resolved to no IPv4 address.
pub open spec fn no_ipv4_message(host: Seq<char>) -> Seq<char> {
    "SOCKS4 requires IPv4 but no IPv4 address found for "@ + host
}

/// Picks the address a SOCKS4 request goes to: the first IPv4 address that
/// `host` resolved to, or a protocol error when it resolved to none.
pub fn select_ipv4(host: &str, addrs: &[Option<[u8; 4]>]) -> (r: Result<[u8; 4], ProxyError>)
    ensures
        match first_ipv4_spec(addrs@) {
            Some(ip) => r == Ok::<[u8; 4], ProxyError>(ip),
            None => r matches Err(e) && e@ == ProxyFailure::ProtocolError(no_ipv4_message(host@)),
        },
{
    let mut i: usize = 0;
    assert(addrs@.skip(0) =~= addrs@);
    while i < addrs.len()
        invariant
            i <= addrs@.len(),
            first_ipv4_spec(addrs@) == first_ipv4_spec(addrs@.skip(i as int)),
        decreases addrs.len() - i,
    {
        assert(addrs@.skip(i as int).drop_first() =~= addrs@.skip(i as int + 1));
        if let Some(ip) = addrs[i] {
            return Ok(ip);
        }
        i += 1;
    }
    let msg = String::from_str("SOCKS4 requires IPv4 but no IPv4 address found for ").concat(host);
    Err(ProxyError::ProtocolError(msg))
}

/// A SOCKS4 CONNECT request is version 4, command 1, the port in two bytes
/// (high byte first), the four address bytes, the user ID and a closing
/// zero byte.
pub proof fn law_request_layout(ip: Seq<u8>, port: u16, user_id: Seq<u8>)
    requires
        ip.len() == 4,
    ensures
        ({
            let r = request_spec(ip, port, user_id);
            let u = user_id.len() as int;
            &&& r.len() == 9 + u
            &&& r[0] == 4 && r[1] == 1
            &&& r[2] * 256 + r[3] == port
            &&& r.subrange(4, 8) == ip
            &&& r.subrange(8, 8 + u) == user_id
            &&& r[8 + u] == 0
        }),
{
    let r = request_spec(ip, port, user_id);
    let u = user_id.len() as int;
    assert(r.subrange(4, 8) =~= ip);
    assert(r.subrange(8, 8 + u) =~= user_id);
}

/// A SOCKS4 reply grants the request exactly when its status byte (the
/// second) is 0x5A; any other status is a refusal.
pub proof fn law_response_status(response: Seq<u8>)
    requires
        response.len() == 8,
    ensures
        response_spec(response) is Ok <==> response[1] == 0x5A,
        response[1] != 0x5A ==> response_spec(response) matches Err(ProxyFailure::RequestRejected(_)),
{
}

} // verus!
