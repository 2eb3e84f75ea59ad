//! SOCKS4a proxy messages.
//!
//! Extension of SOCKS4 that supports hostname-based connections.
//! Instead of a real destination IP, the client sends `0.0.0.x` (where x > 0)
//! and appends the hostname after the USERID+NULL.
//!
//! ```text
//! Client -> Proxy:
//!   VER(0x04) | CMD(0x01) | DSTPORT(2) | DSTIP(0.0.0.x) | USERID | NULL | HOSTNAME | NULL
//!
//! Proxy -> Client:
//!   Same 8-byte response as SOCKS4
//! ```
use vstd::prelude::*;
use vstd::string::StringSliceAdditionalSpecFns;

use super::socks4::{port_be, push_port_be};
use crate::text::append_bytes;

verus! {

/// The SOCKS4a CONNECT request: the address `0.0.0.1` marks hostname mode.
pub open spec fn request_spec(host: Seq<u8>, port: u16, user_id: Seq<u8>) -> Seq<u8> {
    seq![0x04u8, 0x01u8] + port_be(port) + seq![0x00u8, 0x00u8, 0x00u8, 0x01u8] + user_id
        + seq![0x00u8] + host + seq![0x00u8]
}

/// Builds the SOCKS4a CONNECT request bytes.
pub fn build_request(target_host: &str, target_port: u16, user_id: &str) -> (r: Vec<u8>)
    ensures
        r@ == request_spec(target_host.spec_bytes(), target_port, user_id.spec_bytes()),
{
    let mut buf: Vec<u8> = Vec::new();
    buf.push(0x04);
    buf.push(0x01);
    push_port_be(&mut buf, target_port);
    buf.push(0x00);
    buf.push(0x00);
    buf.push(0x00);
    buf.push(0x01);
    append_bytes(&mut buf, user_id.as_bytes());
    buf.push(0x00);
    append_bytes(&mut buf, target_host.as_bytes());
    buf.push(0x00);
    assert(buf@ =~= request_spec(target_host.spec_bytes(), target_port, user_id.spec_bytes()));
    buf
}

/// A SOCKS4a CONNECT request is version 4, command 1, the port in two bytes
/// (high byte first), the address 0.0.0.1 that asks the proxy to resolve
/// the host, the user ID and a zero byte, then the host name and a closing
/// zero byte.
pub proof fn law_request_layout(host: Seq<u8>, port: u16, user_id: Seq<u8>)
    ensures
        ({
            let r = request_spec(host, port, user_id);
            let u = user_id.len() as int;
            let h = host.len() as int;
            &&& r.len() == 10 + u + h
            &&& r[0] == 4 && r[1] == 1
            &&& r[2] * 256 + r[3] == port
            &&& r[4] == 0 && r[5] == 0 && r[6] == 0 && r[7] == 1
            &&& r.subrange(8, 8 + u) == user_id
            &&& r[8 + u] == 0
            &&& r.subrange(9 + u, 9 + u + h) == host
            &&& r[9 + u + h] == 0
        }),
{
    let r = request_spec(host, port, user_id);
    let u = user_id.len() as int;
    let h = host.len() as int;
    assert(r.subrange(8, 8 + u) =~= user_id);
    assert(r.subrange(9 + u, 9 + u + h) =~= host);
}

} // verus!
