//! HTTP CONNECT proxy messages.
//!
//! Sends `CONNECT host:port HTTP/1.1` to the proxy server.
//! A 407 Proxy Authentication Required answer is retried with Basic auth;
//! a 2xx response indicates the tunnel is established.
use vstd::prelude::*;
use vstd::utf8::encode_utf8;

use super::{ProxyError, ProxyFailure};
use crate::strings::{second_field, second_field_of, str_chars, string_from_chars, trim, trim_bounds, chars_range};
use crate::text::{
    ascii_chars, debug_text, decimal, parse_u16, parse_unsigned, push_char, push_decimal,
    str_debug,
};

verus! {

broadcast use vstd::std_specs::vec::group_vec_axioms;

/// HTTP CONNECT authentication credentials.
#[derive(Debug, Clone)]
pub struct Credentials {
    pub username: String,
    pub password: String,
}

/// What to do after a reply to a CONNECT request.
#[derive(Debug, Clone, Copy, PartialEq, Eq)]
pub enum ConnectStep {
    /// The tunnel is established.
    Established,
    /// Send the request again, with the credentials.
    RetryWithAuth,
}

// ---------------------------------------------------------------------------
// Specification
// ---------------------------------------------------------------------------

/// The Base64 alphabet: `A-Z`, `a-z`, `0-9`, `+`, `/`.
pub open spec fn b64_char(v: nat) -> char {
    if v < 26 {
        (65 + v) as char
    } else if v < 52 {
        (97 + v - 26) as char
    } else if v < 62 {
        (48 + v - 52) as char
    } else if v == 62 {
        '+'
    } else {
        '/'
    }
}

/// The four characters of a group of `n` (1 to 3) bytes, padded with `=`.
pub open spec fn base64_group(b0: u8, b1: u8, b2: u8, n: nat) -> Seq<char> {
    seq![
        b64_char((b0 / 4) as nat),
        b64_char(((b0 % 4) * 16 + b1 / 16) as nat),
        if n > 1 {
            b64_char(((b1 % 16) * 4 + b2 / 64) as nat)
        } else {
            '='
        },
        if n > 2 {
            b64_char((b2 % 64) as nat)
        } else {
            '='
        },
    ]
}

/// The standard Base64 encoding, with padding.
pub open spec fn base64(b: Seq<u8>) -> Seq<char>
    decreases b.len(),
{
    if b.len() == 0 {
        Seq::empty()
    } else if b.len() < 3 {
        base64_group(
            b[0],
            if b.len() > 1 {
                b[1]
            } else {
                0
            },
            0,
            b.len(),
        )
    } else {
        base64_group(b[0], b[1], b[2], 3) + base64(b.skip(3))
    }
}

/// The decimal text of a number.
pub open spec fn dec(n: nat) -> Seq<char> {
    ascii_chars(decimal(n))
}

/// The CONNECT request, with a Basic `Proxy-Authorization` header when
/// credentials are given.
pub open spec fn connect_request_spec(
    host: Seq<char>,
    port: u16,
    credentials: Option<(Seq<char>, Seq<char>)>,
) -> Seq<char> {
    let target = host + ":"@ + dec(port as nat);
    "CONNECT "@ + target + " HTTP/1.1\r\nHost: "@ + target + "\r\n"@ + match credentials {
        Some((u, p)) => "Proxy-Authorization: Basic "@ + base64(encode_utf8(u + ":"@ + p))
            + "\r\n"@,
        None => Seq::empty(),
    } + "\r\n"@
}

/// The status code of a proxy's status line (`HTTP/1.1 200 OK`).
pub open spec fn status_line_spec(line: Seq<char>) -> Result<u16, ProxyFailure> {
    match second_field(trim(line)) {
        None => Err(ProxyFailure::ProtocolError("invalid HTTP status line: "@ + debug_text(line))),
        Some(p) => match parse_unsigned(encode_utf8(p), 65535) {
            Some(v) => Ok(v as u16),
            None => Err(ProxyFailure::ProtocolError("invalid HTTP status code: "@ + debug_text(p))),
        },
    }
}

/// What follows a reply with `status`: after the first request, a 2xx
/// establishes the tunnel and a 407 asks for a retry with credentials
/// (refused without them); after the retry only a 2xx is accepted.
pub open spec fn connect_step_spec(status: u16, after_auth: bool, has_credentials: bool) -> Result<
    ConnectStep,
    ProxyFailure,
> {
    if 200 <= status < 300 {
        Ok(ConnectStep::Established)
    } else if after_auth {
        Err(
            ProxyFailure::AuthenticationFailed(
                "proxy authentication failed with status "@ + dec(status as nat),
            ),
        )
    } else if status == 407 {
        if has_credentials {
            Ok(ConnectStep::RetryWithAuth)
        } else {
            Err(
                ProxyFailure::AuthenticationFailed(
                    "proxy requires authentication (407) but no credentials provided"@,
                ),
            )
        }
    } else {
        Err(ProxyFailure::RequestRejected("HTTP CONNECT failed with status "@ + dec(status as nat)))
    }
}

// ---------------------------------------------------------------------------
// Implementation
// ---------------------------------------------------------------------------

fn b64_digit(v: u8) -> (r: char)
    requires
        v < 64,
    ensures
        r == b64_char(v as nat),
{
    if v < 26 {
        (65 + v) as char
    } else if v < 52 {
        (97 + v - 26) as char
    } else if v < 62 {
        (48 + v - 52) as char
    } else if v == 62 {
        '+'
    } else {
        '/'
    }
}

/// Simple Base64 encoder, with padding.
pub fn base64_encode(input: &str) -> (r: String)
    ensures
        r@ == base64(encode_utf8(input@)),
{
    let bytes = input.as_bytes();
    let ghost b = bytes@;
    let mut result = String::new();
    let mut i: usize = 0;
    assert(b.skip(0) =~= b);
    while i < bytes.len()
        invariant
            i <= bytes.len(),
            b == bytes@,
            result@ + base64(b.skip(i as int)) == base64(b),
        decreases bytes.len() - i,
    {
        let ghost rest = b.skip(i as int);
        let ghost before = result@;
        let n = bytes.len() - i;
        let b0 = bytes[i];
        let b1 = if n > 1 {
            bytes[i + 1]
        } else {
            0
        };
        let b2 = if n > 2 {
            bytes[i + 2]
        } else {
            0
        };
        push_char(&mut result, b64_digit(b0 / 4));
        push_char(&mut result, b64_digit((b0 % 4) * 16 + b1 / 16));
        if n > 1 {
            push_char(&mut result, b64_digit((b1 % 16) * 4 + b2 / 64));
        } else {
            push_char(&mut result, '=');
        }
        if n > 2 {
            push_char(&mut result, b64_digit(b2 % 64));
        } else {
            push_char(&mut result, '=');
        }
        if n >= 3 {
            assert(rest.skip(3) =~= b.skip(i + 3));
            assert(result@ =~= before + base64_group(b0, b1, b2, 3));
            i += 3;
        } else {
            assert(result@ =~= before + base64_group(b0, b1, b2, n as nat));
            assert(b.skip(bytes.len() as int) =~= Seq::<u8>::empty());
            i = bytes.len();
        }
    }
    assert(b.skip(i as int) =~= Seq::<u8>::empty());
    assert(result@ =~= result@ + Seq::<char>::empty());
    result
}

/// Builds the HTTP CONNECT request string.
pub fn build_connect_request(host: &str, port: u16, credentials: Option<&Credentials>) -> (r: String)
    ensures
        r@ == connect_request_spec(
            host@,
            port,
            match credentials {
                Some(c) => Some((c.username@, c.password@)),
                None => None,
            },
        ),
{
    proof {
        reveal_strlit(":");
    }
    let mut target = String::from_str(host);
    push_char(&mut target, ':');
    push_decimal(&mut target, port as u64);
    assert(target@ =~= host@ + ":"@ + dec(port as nat));
    let mut request = String::from_str("CONNECT ");
    request.append(target.as_str());
    request.append(" HTTP/1.1\r\nHost: ");
    request.append(target.as_str());
    request.append("\r\n");
    let ghost head = request@;
    match credentials {
        Some(creds) => {
            let mut userpass = String::from_str(creds.username.as_str());
            push_char(&mut userpass, ':');
            userpass.append(creds.password.as_str());
            assert(userpass@ =~= creds.username@ + ":"@ + creds.password@);
            let encoded = base64_encode(userpass.as_str());
            request.append("Proxy-Authorization: Basic ");
            request.append(encoded.as_str());
            request.append("\r\n");
        },
        None => {},
    }
    request.append("\r\n");
    assert(request@ =~= connect_request_spec(
        host@,
        port,
        match credentials {
            Some(c) => Some((c.username@, c.password@)),
            None => None,
        },
    ));
    request
}

/// Parses the HTTP status code from a status line (e.g., "HTTP/1.1 200 OK").
pub fn parse_status_line(line: &str) -> (r: Result<u16, ProxyError>)
    ensures
        match status_line_spec(line@) {
            Ok(v) => r == Ok::<u16, ProxyError>(v),
            Err(e) => r matches Err(x) && x@ == e,
        },
{
    let chars = str_chars(line);
    let (a, b) = trim_bounds(chars.as_slice());
    let trimmed = chars_range(chars.as_slice(), a, b);
    match second_field_of(trimmed.as_slice()) {
        None => {
            let msg = String::from_str("invalid HTTP status line: ").concat(str_debug(line).as_str());
            Err(ProxyError::ProtocolError(msg))
        },
        Some(p) => {
            let part = string_from_chars(p.as_slice());
            match parse_u16(part.as_str()) {
                Some(v) => Ok(v),
                None => {
                    let msg = String::from_str("invalid HTTP status code: ").concat(
                        str_debug(part.as_str()).as_str(),
                    );
                    Err(ProxyError::ProtocolError(msg))
                },
            }
        },
    }
}

/// What follows a reply to a CONNECT request with `status`. `after_auth`
/// tells whether the request carried credentials, `has_credentials`
/// whether any are configured.
pub fn connect_step(status: u16, after_auth: bool, has_credentials: bool) -> (r: Result<
    ConnectStep,
    ProxyError,
>)
    ensures
        match connect_step_spec(status, after_auth, has_credentials) {
            Ok(s) => r == Ok::<ConnectStep, ProxyError>(s),
            Err(e) => r matches Err(x) && x@ == e,
        },
{
    if 200 <= status && status < 300 {
        Ok(ConnectStep::Established)
    } else if after_auth {
        let mut msg = String::from_str("proxy authentication failed with status ");
        push_decimal(&mut msg, status as u64);
        Err(ProxyError::AuthenticationFailed(msg))
    } else if status == 407 {
        if has_credentials {
            Ok(ConnectStep::RetryWithAuth)
        } else {
            Err(
                ProxyError::AuthenticationFailed(
                    String::from_str(
                        "proxy requires authentication (407) but no credentials provided",
                    ),
                ),
            )
        }
    } else {
        let mut msg = String::from_str("HTTP CONNECT failed with status ");
        push_decimal(&mut msg, status as u64);
        Err(ProxyError::RequestRejected(msg))
    }
}

/// The six-bit value a Base64 character stands for (`=` and characters out
/// of the alphabet stand for none, here -1).
pub open spec fn b64_value(c: char) -> int {
    if 'A' <= c <= 'Z' {
        c as int - 65
    } else if 'a' <= c <= 'z' {
        c as int - 97 + 26
    } else if '0' <= c <= '9' {
        c as int - 48 + 52
    } else if c == '+' {
        62
    } else if c == '/' {
        63
    } else {
        -1
    }
}

/// Each six-bit value has its own Base64 character, which reads back as
/// that value, and no character of the alphabet is the padding `=`.
pub proof fn law_b64_alphabet(v: nat)
    requires
        v < 64,
    ensures
        b64_value(b64_char(v)) == v,
        b64_char(v) != '=',
{
}

/// A Base64 group reads back as the bytes it encodes: three bytes as four
/// characters holding their 24 bits, most significant first; two bytes as
/// three characters holding their 16 bits and two zero bits, then `=`; one
/// byte as two characters holding its 8 bits and four zero bits, then `==`.
pub proof fn law_base64_group(b0: u8, b1: u8, b2: u8)
    ensures
        ({
            let g = base64_group(b0, b1, b2, 3);
            b64_value(g[0]) * 262144 + b64_value(g[1]) * 4096 + b64_value(g[2]) * 64 + b64_value(g[3])
                == b0 * 65536 + b1 * 256 + b2
        }),
        ({
            let g = base64_group(b0, b1, 0, 2);
            &&& b64_value(g[0]) * 4096 + b64_value(g[1]) * 64 + b64_value(g[2]) == (b0 * 256 + b1) * 4
            &&& g[3] == '='
        }),
        ({
            let g = base64_group(b0, 0, 0, 1);
            &&& b64_value(g[0]) * 64 + b64_value(g[1]) == b0 * 16
            &&& g[2] == '=' && g[3] == '='
        }),
{
    let (x, y, z) = (b0 as int, b1 as int, b2 as int);
    law_b64_alphabet((b0 / 4) as nat);
    law_b64_alphabet(((b0 % 4) * 16 + b1 / 16) as nat);
    law_b64_alphabet(((b1 % 16) * 4 + b2 / 64) as nat);
    law_b64_alphabet((b2 % 64) as nat);
    law_b64_alphabet(((b0 % 4) * 16) as nat);
    law_b64_alphabet(((b1 % 16) * 4) as nat);
    assert((x / 4) * 262144 + ((x % 4) * 16 + y / 16) * 4096 + ((y % 16) * 4 + z / 64) * 64 + z % 64
        == x * 65536 + y * 256 + z) by (nonlinear_arith)
        requires
            0 <= x < 256,
            0 <= y < 256,
            0 <= z < 256,
    ;
    assert((x / 4) * 4096 + ((x % 4) * 16 + y / 16) * 64 + (y % 16) * 4 == (x * 256 + y) * 4)
        by (nonlinear_arith)
        requires
            0 <= x < 256,
            0 <= y < 256,
    ;
    assert((x / 4) * 64 + (x % 4) * 16 == x * 16) by (nonlinear_arith)
        requires
            0 <= x < 256,
    ;
}

/// Base64 encodes three bytes at a time, in order: after whole groups of
/// three, the rest is encoded on its own; one, two or three bytes make one
/// group, and nothing encodes as nothing.
pub proof fn law_base64_groups(a: Seq<u8>, c: Seq<u8>)
    requires
        a.len() % 3 == 0,
    ensures
        base64(a + c) == base64(a) + base64(c),
        base64(Seq::<u8>::empty()) == Seq::<char>::empty(),
        c.len() == 1 ==> base64(c) == base64_group(c[0], 0, 0, 1),
        c.len() == 2 ==> base64(c) == base64_group(c[0], c[1], 0, 2),
        c.len() == 3 ==> base64(c) == base64_group(c[0], c[1], c[2], 3),
    decreases a.len(),
{
    if c.len() == 3 {
        assert(c.skip(3) =~= Seq::<u8>::empty());
        assert(base64(c.skip(3)) =~= Seq::<char>::empty());
        assert(base64(c) == base64_group(c[0], c[1], c[2], 3) + base64(c.skip(3)));
        assert(base64(c) =~= base64_group(c[0], c[1], c[2], 3));
    }
    if a.len() == 0 {
        assert(a + c =~= c);
        assert(base64(a) + base64(c) =~= base64(c));
    } else {
        law_base64_groups(a.skip(3), c);
        assert((a + c).skip(3) =~= a.skip(3) + c);
        assert((a + c)[0] == a[0] && (a + c)[1] == a[1] && (a + c)[2] == a[2]);
        assert(base64(a + c) =~= base64(a) + base64(c));
    }
}

/// How a CONNECT exchange goes on after a reply: any 2xx status opens the
/// tunnel; a 407 to the first request asks for a retry with credentials,
/// and is an authentication failure when there are none; any other status
/// after the retry is an authentication failure, and before it a refusal.
pub proof fn law_connect_step(status: u16, after_auth: bool, has_credentials: bool)
    ensures
        200 <= status < 300 ==> connect_step_spec(status, after_auth, has_credentials) == Ok::<
            ConnectStep,
            ProxyFailure,
        >(ConnectStep::Established),
        !(200 <= status < 300) && after_auth ==> connect_step_spec(status, after_auth, has_credentials)
            matches Err(ProxyFailure::AuthenticationFailed(_)),
        status == 407 && !after_auth && has_credentials ==> connect_step_spec(
            status,
            after_auth,
            has_credentials,
        ) == Ok::<ConnectStep, ProxyFailure>(ConnectStep::RetryWithAuth),
        status == 407 && !after_auth && !has_credentials ==> connect_step_spec(
            status,
            after_auth,
            has_credentials,
        ) matches Err(ProxyFailure::AuthenticationFailed(_)),
        !(200 <= status < 300) && status != 407 && !after_auth ==> connect_step_spec(
            status,
            after_auth,
            has_credentials,
        ) matches Err(ProxyFailure::RequestRejected(_)),
{
}

/// A CONNECT request names the target `host:port` in its request line and
/// in its `Host` header, carries a Basic `Proxy-Authorization` header with
/// the Base64 of `user:password` exactly when credentials are given, and
/// ends with an empty line.
pub proof fn law_connect_request(host: Seq<char>, port: u16, credentials: Option<(Seq<char>, Seq<char>)>)
    ensures
        ({
            let r = connect_request_spec(host, port, credentials);
            let target = host + ":"@ + dec(port as nat);
            let line = "CONNECT "@ + target + " HTTP/1.1\r\n"@;
            let host_line = "Host: "@ + target + "\r\n"@;
            let n = (line.len() + host_line.len()) as int;
            &&& r.take(line.len() as int) == line
            &&& r.subrange(line.len() as int, n) == host_line
            &&& r.skip(r.len() - 2) == "\r\n"@
            &&& r.subrange(n, r.len() - 2) == match credentials {
                Some((u, p)) => "Proxy-Authorization: Basic "@ + base64(encode_utf8(u + ":"@ + p))
                    + "\r\n"@,
                None => Seq::<char>::empty(),
            }
        }),
{
    let r = connect_request_spec(host, port, credentials);
    let target = host + ":"@ + dec(port as nat);
    let line = "CONNECT "@ + target + " HTTP/1.1\r\n"@;
    let host_line = "Host: "@ + target + "\r\n"@;
    let auth = match credentials {
        Some((u, p)) => "Proxy-Authorization: Basic "@ + base64(encode_utf8(u + ":"@ + p)) + "\r\n"@,
        None => Seq::<char>::empty(),
    };
    reveal_strlit(" HTTP/1.1\r\nHost: ");
    reveal_strlit(" HTTP/1.1\r\n");
    reveal_strlit("Host: ");
    reveal_strlit("\r\n");
    reveal_strlit("CONNECT ");
    assert(r =~= line + host_line + auth + "\r\n"@);
    let n = (line.len() + host_line.len()) as int;
    assert(r.take(line.len() as int) =~= line);
    assert(r.subrange(line.len() as int, n) =~= host_line);
    assert(r.skip(r.len() - 2) =~= "\r\n"@);
    assert(r.subrange(n, r.len() - 2) =~= auth);
}

} // verus!
