//! Raw HTTP request building and response parsing for tracker
//! communication: exact header control, HTTP/1.0 support, chunked transfer
//! encoding and gzip content encoding.
use vstd::prelude::*;
use vstd::string::StringSliceAdditionalSpecFns;
use vstd::utf8::{decode_utf8, encode_utf8, valid_utf8};

use super::tcp::{tcp_message, TcpError};
use crate::proxy::{proxy_message, ProxyError, ProxyFailure};
use crate::strings::{
    before_char, char_lines_view, lemma_decimal_text, chars_range, contains, contains_chars, find_char, index_of,
    ascii_lowercase, ascii_text, last_index_of, lemma_index_of, lines, lowercase, occurs_at, occurs_at_exec, rfind_char,
    second_field, second_field_of, split_lines, str_chars, str_eq, string_from_chars,
    string_from_range, to_lowercase, trim, trim_bounds, trimmed_string, whitespace,
};
use crate::text::{
    ascii_chars, decimal, append_bytes, debug_text, find_bytes, find_bytes_from, lemma_find_bytes, parse_hex_unsigned,
    parse_hex_usize, parse_u16, parse_unsigned, slice_from, slice_range, slice_to_vec,
    str_debug, str_from_utf8, utf8_error_message,
};

verus! {

broadcast use vstd::std_specs::vec::group_vec_axioms;

/// Errors that can occur during HTTP operations.
#[derive(Debug)]
pub enum HttpError {
    /// Failed to connect (directly or through proxy).
    Connection(String),
    /// The HTTP response was malformed.
    InvalidResponse(String),
    /// An I/O error occurred, with its message.
    Io(String),
    /// Request timed out.
    Timeout,
    /// Proxy error.
    Proxy(ProxyError),
    /// TCP error.
    Tcp(TcpError),
}

/// The mathematical model of an [`HttpError`].
pub enum HttpFailure {
    Connection(Seq<char>),
    InvalidResponse(Seq<char>),
    Io(Seq<char>),
    Timeout,
    Proxy(ProxyFailure),
    Tcp(TcpError),
}

impl View for HttpError {
    type V = HttpFailure;

    open spec fn view(&self) -> HttpFailure {
        match self {
            HttpError::Connection(m) => HttpFailure::Connection(m@),
            HttpError::InvalidResponse(m) => HttpFailure::InvalidResponse(m@),
            HttpError::Io(m) => HttpFailure::Io(m@),
            HttpError::Timeout => HttpFailure::Timeout,
            HttpError::Proxy(e) => HttpFailure::Proxy(e@),
            HttpError::Tcp(e) => HttpFailure::Tcp(*e),
        }
    }
}

/// Whether `m` is the description of the HTTP error `e`; those of proxy
/// and TCP errors end with the inner error's description.
pub open spec fn http_message(e: HttpFailure, m: Seq<char>) -> bool {
    match e {
        HttpFailure::Connection(s) => m == "connection error: "@ + s,
        HttpFailure::InvalidResponse(s) => m == "invalid HTTP response: "@ + s,
        HttpFailure::Io(s) => m == "http io error: "@ + s,
        HttpFailure::Timeout => m == "http request timed out"@,
        HttpFailure::Proxy(p) => "proxy error: "@.is_prefix_of(m) && proxy_message(
            p,
            m.skip("proxy error: "@.len() as int),
        ),
        HttpFailure::Tcp(t) => "tcp error: "@.is_prefix_of(m) && tcp_message(
            t,
            m.skip("tcp error: "@.len() as int),
        ),
    }
}

impl HttpError {
    /// The human-readable description of the error.
    pub fn message(&self) -> (r: String)
        ensures
            http_message(self@, r@),
    {
        match self {
            HttpError::Connection(s) => String::from_str("connection error: ").concat(s.as_str()),
            HttpError::InvalidResponse(s) => String::from_str("invalid HTTP response: ").concat(
                s.as_str(),
            ),
            HttpError::Io(s) => String::from_str("http io error: ").concat(s.as_str()),
            HttpError::Timeout => String::from_str("http request timed out"),
            HttpError::Proxy(p) => {
                let inner = p.message();
                let r = String::from_str("proxy error: ").concat(inner.as_str());
                proof {
                    reveal_strlit("proxy error: ");
                    assert(r@.skip("proxy error: "@.len() as int) =~= inner@);
                }
                r
            },
            HttpError::Tcp(t) => {
                let inner = t.message();
                let r = String::from_str("tcp error: ").concat(inner.as_str());
                proof {
                    reveal_strlit("tcp error: ");
                    assert(r@.skip("tcp error: "@.len() as int) =~= inner@);
                }
                r
            },
        }
    }
}

/// HTTP protocol version.
#[derive(Debug, Clone, Copy, PartialEq, Eq)]
pub enum HttpVersion {
    Http10,
    Http11,
}

/// The text of an HTTP version.
pub open spec fn version_text(v: HttpVersion) -> Seq<char> {
    match v {
        HttpVersion::Http10 => "HTTP/1.0"@,
        HttpVersion::Http11 => "HTTP/1.1"@,
    }
}

impl HttpVersion {
    /// The version as it stands in a request line.
    pub fn as_str(self) -> (r: &'static str)
        ensures
            r@ == version_text(self),
    {
        match self {
            HttpVersion::Http10 => "HTTP/1.0",
            HttpVersion::Http11 => "HTTP/1.1",
        }
    }
}

/// The texts of a list of header pairs.
pub open spec fn pairs_view(v: Seq<(String, String)>) -> Seq<(Seq<char>, Seq<char>)> {
    v.map_values(|e: (String, String)| (e.0@, e.1@))
}

/// A parsed HTTP response.
#[derive(Debug)]
pub struct HttpResponse {
    /// HTTP status code.
    pub status_code: u16,
    /// Response headers (lowercase keys).
    pub headers: Vec<(String, String)>,
    /// Response body (decompressed if gzip).
    pub body: Vec<u8>,
}

/// The value of the first header named `key`.
pub open spec fn header_lookup(headers: Seq<(Seq<char>, Seq<char>)>, key: Seq<char>) -> Option<
    Seq<char>,
>
    decreases headers.len(),
{
    if headers.len() == 0 {
        None
    } else if headers[0].0 == key {
        Some(headers[0].1)
    } else {
        header_lookup(headers.drop_first(), key)
    }
}

/// The value of the first header named `key` in a list of header pairs.
pub fn find_header<'a>(headers: &'a [(String, String)], key: &str) -> (r: Option<&'a str>)
    ensures
        match header_lookup(pairs_view(headers@), key@) {
            Some(v) => r matches Some(x) && x@ == v,
            None => r is None,
        },
{
    let ghost hv = pairs_view(headers@);
    let mut i: usize = 0;
    assert(hv.skip(0) =~= hv);
    while i < headers.len()
        invariant
            i <= headers@.len(),
            hv == pairs_view(headers@),
            header_lookup(hv, key@) == header_lookup(hv.skip(i as int), key@),
        decreases headers.len() - i,
    {
        assert(hv.skip(i as int).drop_first() =~= hv.skip(i + 1));
        assert(hv.skip(i as int)[0] == (headers@[i as int].0@, headers@[i as int].1@));
        if str_eq(headers[i].0.as_str(), key) {
            return Some(headers[i].1.as_str());
        }
        i += 1;
    }
    None
}

impl HttpResponse {
    /// Gets the first header value matching the given key, compared in
    /// lower case.
    pub fn header(&self, key: &str) -> (r: Option<&str>)
        ensures
            match header_lookup(pairs_view(self.headers@), lowercase(key@)) {
                Some(v) => r matches Some(x) && x@ == v,
                None => r is None,
            },
            ascii_text(key@) ==> match header_lookup(pairs_view(self.headers@), ascii_lowercase(key@)) {
                Some(v) => r matches Some(x) && x@ == v,
                None => r is None,
            },
    {
        let key_lower = to_lowercase(key);
        find_header(self.headers.as_slice(), key_lower.as_str())
    }
}

/// Parsed URL components.
#[derive(Debug, Clone)]
pub struct ParsedUrl {
    pub host: String,
    pub port: u16,
    pub path_and_query: String,
    pub tls: bool,
}

// ---------------------------------------------------------------------------
// Specification
// ---------------------------------------------------------------------------

/// `s` starts with `pat`.
pub open spec fn starts_with(s: Seq<char>, pat: Seq<char>) -> bool {
    occurs_at(s, pat, 0)
}

/// The parts of an `http://` or `https://` URL: host, port (80 or 443 by
/// default), path and query (`/` by default), and whether TLS is used.
pub open spec fn parse_url_spec(url: Seq<char>) -> Result<
    (Seq<char>, u16, Seq<char>, bool),
    HttpFailure,
> {
    let u = trim(url);
    if !starts_with(u, "https://"@) && !starts_with(u, "http://"@) {
        Err(HttpFailure::InvalidResponse("unsupported URL scheme: "@ + u))
    } else {
        let tls = starts_with(u, "https://"@);
        let rest = if tls {
            u.skip("https://"@.len() as int)
        } else {
            u.skip("http://"@.len() as int)
        };
        let default_port: u16 = if tls {
            443
        } else {
            80
        };
        let host_port = match index_of(rest, '/', 0) {
            Some(i) => rest.take(i),
            None => rest,
        };
        let path = match index_of(rest, '/', 0) {
            Some(i) => rest.skip(i),
            None => "/"@,
        };
        match last_index_of(host_port, ':') {
            Some(i) => {
                let port_str = host_port.skip(i + 1);
                match parse_unsigned(encode_utf8(port_str), 65535) {
                    Some(p) => Ok((host_port.take(i), p as u16, path, tls)),
                    None => Err(HttpFailure::InvalidResponse("invalid port: "@ + port_str)),
                }
            },
            None => Ok((host_port, default_port, path, tls)),
        }
    }
}

/// The header lines of a request, `name: value` each.
pub open spec fn header_lines(headers: Seq<(Seq<char>, Seq<char>)>) -> Seq<char>
    decreases headers.len(),
{
    if headers.len() == 0 {
        Seq::empty()
    } else {
        header_lines(headers.drop_last()) + headers.last().0 + ": "@ + headers.last().1 + "\r\n"@
    }
}

/// A GET request: request line, `Host`, the given headers, and a blank line.
pub open spec fn get_request_spec(
    path_and_query: Seq<char>,
    host: Seq<char>,
    headers: Seq<(Seq<char>, Seq<char>)>,
    version: HttpVersion,
) -> Seq<char> {
    "GET "@ + path_and_query + " "@ + version_text(version) + "\r\nHost: "@ + host + "\r\n"@
        + header_lines(headers) + "\r\n"@
}

/// The bytes of an empty line after a header line.
pub open spec fn header_terminator() -> Seq<u8> {
    seq![13u8, 10u8, 13u8, 10u8]
}

/// A line ending.
pub open spec fn crlf() -> Seq<u8> {
    seq![13u8, 10u8]
}

/// The status code of a status line.
pub open spec fn status_code_spec(line: Seq<char>) -> Result<u16, HttpFailure> {
    match second_field(line) {
        None => Err(HttpFailure::InvalidResponse("invalid status line: "@ + debug_text(line))),
        Some(p) => match parse_unsigned(encode_utf8(p), 65535) {
            Some(v) => Ok(v as u16),
            None => Err(HttpFailure::InvalidResponse("invalid status code: "@ + debug_text(p))),
        },
    }
}

/// The chunk size written on a size line (extensions after `;` ignored).
pub open spec fn chunk_size_text(line: Seq<char>) -> Seq<char> {
    trim(before_char(trim(line), ';'))
}

/// Chunked transfer decoding from `pos` on: `<hex-size>\r\n<data>\r\n`
/// repeated, ending at a zero size, at the end of the data, or at a
/// partial last chunk (kept as far as it goes).
pub open spec fn chunked_from(data: Seq<u8>, pos: int) -> Result<Seq<u8>, HttpFailure>
    decreases data.len() + 1 - pos,
{
    if pos < 0 {
        Ok(Seq::empty())
    } else {
        proof {
            lemma_find_bytes(data, crlf(), pos);
        }
        match find_bytes(data, crlf(), pos) {
            None => Ok(Seq::empty()),
            Some(line_end) => {
                let line = data.subrange(pos, line_end);
                if !valid_utf8(line) {
                    Err(HttpFailure::InvalidResponse(utf8_error_message(line)))
                } else {
                    let size_hex = chunk_size_text(decode_utf8(line));
                    match parse_hex_unsigned(encode_utf8(size_hex), usize::MAX as nat) {
                        None => Err(
                            HttpFailure::InvalidResponse(
                                "invalid chunk size: "@ + debug_text(size_hex),
                            ),
                        ),
                        Some(n) => if n == 0 {
                            Ok(Seq::empty())
                        } else {
                            let start = line_end + 2;
                            if start + n > data.len() {
                                Ok(data.skip(start))
                            } else {
                                let chunk = data.subrange(start, start + n);
                                let next = start + n + 2;
                                if next >= data.len() {
                                    Ok(chunk)
                                } else {
                                    match chunked_from(data, next) {
                                        Ok(rest) => Ok(chunk + rest),
                                        Err(e) => Err(e),
                                    }
                                }
                            }
                        },
                    }
                }
            },
        }
    }
}

/// `acc` put before a successful decoding.
pub open spec fn prefixed(acc: Seq<u8>, r: Result<Seq<u8>, HttpFailure>) -> Result<
    Seq<u8>,
    HttpFailure,
> {
    match r {
        Ok(rest) => Ok(acc + rest),
        Err(e) => Err(e),
    }
}

/// The gzip decoding of a byte string: the decoded bytes, or the text of
/// the decoder's error.
pub uninterp spec fn gunzip(data: Seq<u8>) -> Result<Seq<u8>, Seq<char>>;

/// What decoding gzip data yields, with the error reported.
pub open spec fn gzip_spec(data: Seq<u8>) -> Result<Seq<u8>, HttpFailure> {
    match gunzip(data) {
        Ok(b) => Ok(b),
        Err(m) => Err(HttpFailure::InvalidResponse("gzip decompression failed: "@ + m)),
    }
}

/// The header of a response line: name (trimmed, lowercase) and value
/// (trimmed), split at the first `:`.
pub open spec fn response_header(line: Seq<char>) -> Option<(Seq<char>, Seq<char>)> {
    match index_of(line, ':', 0) {
        Some(k) => Some((lowercase(trim(line.take(k))), trim(line.skip(k + 1)))),
        None => None,
    }
}

/// The headers of the lines of a response head, in order.
pub open spec fn response_headers(ls: Seq<Seq<char>>) -> Seq<(Seq<char>, Seq<char>)>
    decreases ls.len(),
{
    if ls.len() == 0 {
        Seq::empty()
    } else {
        let prev = response_headers(ls.drop_last());
        match response_header(ls.last()) {
            Some(h) => prev.push(h),
            None => prev,
        }
    }
}

/// Some header is named `name` and its lowercase value contains `token`.
pub open spec fn has_header_token(
    headers: Seq<(Seq<char>, Seq<char>)>,
    name: Seq<char>,
    token: Seq<char>,
) -> bool {
    exists|i: int|
        0 <= i < headers.len() && (#[trigger] headers[i]).0 == name && contains(
            lowercase(headers[i].1),
            token,
        )
}

/// What a raw response says: status code, headers, and body (chunked and
/// gzip encodings undone).
pub open spec fn response_spec(raw: Seq<u8>) -> Result<
    (u16, Seq<(Seq<char>, Seq<char>)>, Seq<u8>),
    HttpFailure,
> {
    match find_bytes(raw, header_terminator(), 0) {
        None => Err(HttpFailure::InvalidResponse("could not find end of HTTP headers"@)),
        Some(he) => {
            let head = raw.take(he);
            let raw_body = raw.skip(he + 4);
            if !valid_utf8(head) {
                Err(HttpFailure::InvalidResponse(utf8_error_message(head)))
            } else {
                let ls = lines(decode_utf8(head));
                if ls.len() == 0 {
                    Err(HttpFailure::InvalidResponse("empty response"@))
                } else {
                    match status_code_spec(ls[0]) {
                        Err(e) => Err(e),
                        Ok(code) => {
                            let hs = response_headers(ls.skip(1));
                            let data = if has_header_token(
                                hs,
                                "transfer-encoding"@,
                                "chunked"@,
                            ) {
                                chunked_from(raw_body, 0)
                            } else {
                                Ok(raw_body)
                            };
                            match data {
                                Err(e) => Err(e),
                                Ok(d) => if has_header_token(hs, "content-encoding"@, "gzip"@) {
                                    match gzip_spec(d) {
                                        Ok(b) => Ok((code, hs, b)),
                                        Err(e) => Err(e),
                                    }
                                } else {
                                    Ok((code, hs, d))
                                },
                            }
                        },
                    }
                }
            }
        },
    }
}

// ---------------------------------------------------------------------------
// Implementation
// ---------------------------------------------------------------------------

/// Parses an `http://` or `https://` URL into host, port, path and query,
/// and whether TLS is used.
pub fn parse_url(url: &str) -> (r: Result<ParsedUrl, HttpError>)
    ensures
        match parse_url_spec(url@) {
            Ok((h, p, q, t)) => r matches Ok(x) && x.host@ == h && x.port == p
                && x.path_and_query@ == q && x.tls == t,
            Err(e) => r matches Err(x) && x@ == e,
        },
{
    let all = str_chars(url);
    let (a, b) = trim_bounds(all.as_slice());
    let u = chars_range(all.as_slice(), a, b);
    let https = str_chars("https://");
    let http = str_chars("http://");
    let (start, tls, default_port) = if occurs_at_exec(u.as_slice(), https.as_slice(), 0) {
        (https.len(), true, 443u16)
    } else if occurs_at_exec(u.as_slice(), http.as_slice(), 0) {
        (http.len(), false, 80u16)
    } else {
        let msg = String::from_str("unsupported URL scheme: ").concat(
            string_from_chars(u.as_slice()).as_str(),
        );
        return Err(HttpError::InvalidResponse(msg));
    };
    let rest = chars_range(u.as_slice(), start, u.len());
    assert(rest@ =~= u@.skip(start as int));
    proof {
        lemma_index_of(rest@, '/', 0);
    }
    let (host_port, path) = match find_char(rest.as_slice(), '/', 0) {
        Some(i) => {
            let hp = chars_range(rest.as_slice(), 0, i);
            let pq = chars_range(rest.as_slice(), i, rest.len());
            assert(hp@ =~= rest@.take(i as int));
            assert(pq@ =~= rest@.skip(i as int));
            (hp, pq)
        },
        None => (rest, str_chars("/")),
    };
    match rfind_char(host_port.as_slice(), ':') {
        Some(i) => {
            let port_chars = chars_range(host_port.as_slice(), i + 1, host_port.len());
            assert(port_chars@ =~= host_port@.skip(i + 1));
            let port_str = string_from_chars(port_chars.as_slice());
            match parse_u16(port_str.as_str()) {
                Some(port) => {
                    let host = string_from_range(host_port.as_slice(), 0, i);
                    assert(host_port@.subrange(0, i as int) =~= host_port@.take(i as int));
                    Ok(
                        ParsedUrl {
                            host,
                            port,
                            path_and_query: string_from_chars(path.as_slice()),
                            tls,
                        },
                    )
                },
                None => {
                    let msg = String::from_str("invalid port: ").concat(port_str.as_str());
                    Err(HttpError::InvalidResponse(msg))
                },
            }
        },
        None => Ok(
            ParsedUrl {
                host: string_from_chars(host_port.as_slice()),
                port: default_port,
                path_and_query: string_from_chars(path.as_slice()),
                tls,
            },
        ),
    }
}

/// Builds a GET request: request line, `Host`, the given headers in order,
/// and the blank line that ends the head.
pub fn build_get_request(parsed: &ParsedUrl, headers: &[(String, String)], version: HttpVersion) -> (r:
    String)
    ensures
        r@ == get_request_spec(parsed.path_and_query@, parsed.host@, pairs_view(headers@), version),
{
    let mut request = String::from_str("GET ");
    request.append(parsed.path_and_query.as_str());
    request.append(" ");
    request.append(version.as_str());
    request.append("\r\nHost: ");
    request.append(parsed.host.as_str());
    request.append("\r\n");
    let ghost head = request@;
    let ghost hv = pairs_view(headers@);
    let mut i: usize = 0;
    assert(hv.take(0) =~= Seq::<(Seq<char>, Seq<char>)>::empty());
    assert(request@ =~= head + header_lines(hv.take(0)));
    while i < headers.len()
        invariant
            i <= headers@.len(),
            hv == pairs_view(headers@),
            request@ == head + header_lines(hv.take(i as int)),
        decreases headers.len() - i,
    {
        assert(hv.take(i + 1).drop_last() =~= hv.take(i as int));
        let ghost before = request@;
        request.append(headers[i].0.as_str());
        request.append(": ");
        request.append(headers[i].1.as_str());
        request.append("\r\n");
        assert(request@ =~= before + headers@[i as int].0@ + ": "@ + headers@[i as int].1@
            + "\r\n"@);
        i += 1;
    }
    assert(hv.take(headers.len() as int) =~= hv);
    request.append("\r\n");
    request
}

/// The position of the blank line that ends the head of a response.
pub fn find_header_end(data: &[u8]) -> (r: Option<usize>)
    ensures
        match find_bytes(data@, header_terminator(), 0) {
            Some(k) => r == Some(k as usize) && 0 <= k && k + 4 <= data.len(),
            None => r is None,
        },
{
    let pat = vec![13u8, 10u8, 13u8, 10u8];
    assert(pat@ =~= header_terminator());
    find_bytes_from(data, pat.as_slice(), 0)
}

/// Parses the status code of a status line (`HTTP/1.1 200 OK`).
pub fn parse_status_code(status_line: &str) -> (r: Result<u16, HttpError>)
    ensures
        match status_code_spec(status_line@) {
            Ok(v) => r == Ok::<u16, HttpError>(v),
            Err(e) => r matches Err(x) && x@ == e,
        },
{
    let chars = str_chars(status_line);
    match second_field_of(chars.as_slice()) {
        None => {
            let msg = String::from_str("invalid status line: ").concat(
                str_debug(status_line).as_str(),
            );
            Err(HttpError::InvalidResponse(msg))
        },
        Some(p) => {
            let part = string_from_chars(p.as_slice());
            match parse_u16(part.as_str()) {
                Some(v) => Ok(v),
                None => {
                    let msg = String::from_str("invalid status code: ").concat(
                        str_debug(part.as_str()).as_str(),
                    );
                    Err(HttpError::InvalidResponse(msg))
                },
            }
        },
    }
}

/// The chunk size text of a size line.
fn chunk_size_string(line: &str) -> (r: String)
    ensures
        r@ == chunk_size_text(line@),
{
    let chars = str_chars(line);
    let (a, b) = trim_bounds(chars.as_slice());
    let t = chars_range(chars.as_slice(), a, b);
    proof {
        lemma_index_of(t@, ';', 0);
    }
    let head = match find_char(t.as_slice(), ';', 0) {
        Some(k) => {
            let h = chars_range(t.as_slice(), 0, k);
            assert(h@ =~= t@.take(k as int));
            h
        },
        None => t,
    };
    trimmed_string(head.as_slice())
}

/// Decodes chunked transfer encoding.
///
/// Format: `<hex-size>\r\n<data>\r\n` repeated, terminated by `0\r\n\r\n`.
/// A last chunk cut short is kept as far as it goes.
pub fn decode_chunked(data: &[u8]) -> (r: Result<Vec<u8>, HttpError>)
    ensures
        match chunked_from(data@, 0) {
            Ok(d) => r matches Ok(x) && x@ == d,
            Err(e) => r matches Err(x) && x@ == e,
        },
{
    let mut result: Vec<u8> = Vec::new();
    let mut pos: usize = 0;
    let crlf_bytes = vec![13u8, 10u8];
    assert(crlf_bytes@ =~= crlf());
    assert(chunked_from(data@, 0) == prefixed(result@, chunked_from(data@, 0))) by {
        match chunked_from(data@, 0) {
            Ok(d) => {
                assert(Seq::<u8>::empty() + d =~= d);
            },
            Err(_) => {},
        }
    }
    loop
        invariant
            pos <= data@.len(),
            crlf_bytes@ == crlf(),
            chunked_from(data@, 0) == prefixed(result@, chunked_from(data@, pos as int)),
        decreases data.len() + 1 - pos,
    {
        proof {
            lemma_find_bytes(data@, crlf(), pos as int);
        }
        let line_end = match find_bytes_from(data, crlf_bytes.as_slice(), pos) {
            Some(i) => i,
            None => {
                assert(result@ + Seq::<u8>::empty() =~= result@);
                return Ok(result);
            },
        };
        let line = slice_range(data, pos, line_end);
        let text = match str_from_utf8(line) {
            Ok(t) => t,
            Err(m) => {
                return Err(HttpError::InvalidResponse(m));
            },
        };
        let size_hex = chunk_size_string(text);
        let chunk_size = match parse_hex_usize(size_hex.as_str().as_bytes()) {
            Some(n) => n,
            None => {
                let msg = String::from_str("invalid chunk size: ").concat(
                    str_debug(size_hex.as_str()).as_str(),
                );
                return Err(HttpError::InvalidResponse(msg));
            },
        };
        if chunk_size == 0 {
            assert(result@ + Seq::<u8>::empty() =~= result@);
            return Ok(result);
        }
        let chunk_start = line_end + 2;
        if chunk_size > data.len() - chunk_start {
            let ghost before = result@;
            append_bytes(&mut result, slice_from(data, chunk_start));
            assert(result@ =~= before + data@.skip(chunk_start as int));
            return Ok(result);
        }
        let chunk_end = chunk_start + chunk_size;
        let ghost before = result@;
        append_bytes(&mut result, slice_range(data, chunk_start, chunk_end));
        assert(result@ =~= before + data@.subrange(chunk_start as int, chunk_end as int));
        if data.len() - chunk_end <= 2 {
            assert(result@ + Seq::<u8>::empty() =~= result@);
            return Ok(result);
        }
        pos = chunk_end + 2;
        proof {
            match chunked_from(data@, pos as int) {
                Ok(rest) => {
                    assert(before + (data@.subrange(chunk_start as int, chunk_end as int) + rest)
                        =~= result@ + rest);
                },
                Err(_) => {},
            }
        }
    }
}

/// The gzip decoding of `data` with `flate2`'s `read::GzDecoder`: the
/// decoded bytes, or the text of the decoder's I/O error. The contract
/// names the result and claims nothing more of it.
#[verifier::external_body]
fn gzip_decode(data: &[u8]) -> (r: Result<Vec<u8>, String>)
    ensures
        match r {
            Ok(v) => gunzip(data@) == Ok::<Seq<u8>, Seq<char>>(v@),
            Err(m) => gunzip(data@) == Err::<Seq<u8>, Seq<char>>(m@),
        },
{
    let mut decoder = flate2::read::GzDecoder::new(data);
    let mut decompressed = Vec::new();
    match std::io::Read::read_to_end(&mut decoder, &mut decompressed) {
        Ok(_) => Ok(decompressed),
        Err(e) => Err(e.to_string()),
    }
}

/// The outcome of a gzip decoding, with a failure reported as an invalid
/// response.
pub fn gzip_outcome(decoded: Result<Vec<u8>, String>) -> (r: Result<Vec<u8>, HttpError>)
    ensures
        match decoded {
            Ok(v) => r matches Ok(x) && x@ == v@,
            Err(m) => r matches Err(x) && x@ == HttpFailure::InvalidResponse(
                "gzip decompression failed: "@ + m@,
            ),
        },
{
    match decoded {
        Ok(v) => Ok(v),
        Err(m) => Err(
            HttpError::InvalidResponse(
                String::from_str("gzip decompression failed: ").concat(m.as_str()),
            ),
        ),
    }
}

/// Decompresses gzip-encoded data.
pub fn decompress_gzip(data: &[u8]) -> (r: Result<Vec<u8>, HttpError>)
    ensures
        match gzip_spec(data@) {
            Ok(d) => r matches Ok(x) && x@ == d,
            Err(e) => r matches Err(x) && x@ == e,
        },
{
    gzip_outcome(gzip_decode(data))
}

/// Whether some header is named `name` and its value, in lower case,
/// contains `token`.
fn header_has_token(headers: &[(String, String)], name: &str, token: &str) -> (r: bool)
    ensures
        r == has_header_token(pairs_view(headers@), name@, token@),
{
    let ghost hv = pairs_view(headers@);
    let tok = str_chars(token);
    let mut i: usize = 0;
    while i < headers.len()
        invariant
            i <= headers@.len(),
            hv == pairs_view(headers@),
            tok@ == token@,
            forall|j: int|
                0 <= j < i ==> !((#[trigger] hv[j]).0 == name@ && contains(
                    lowercase(hv[j].1),
                    token@,
                )),
        decreases headers.len() - i,
    {
        assert(hv[i as int] == (headers@[i as int].0@, headers@[i as int].1@));
        if str_eq(headers[i].0.as_str(), name) {
            let lower = to_lowercase(headers[i].1.as_str());
            let lc = str_chars(lower.as_str());
            if contains_chars(lc.as_slice(), tok.as_slice()) {
                return true;
            }
        }
        i += 1;
    }
    false
}

/// The headers of the lines of a response head after its status line.
fn collect_headers(ls: &[Vec<char>]) -> (r: Vec<(String, String)>)
    requires
        ls@.len() >= 1,
    ensures
        pairs_view(r@) == response_headers(char_lines_view(ls@).skip(1)),
{
    let ghost lv = char_lines_view(ls@).skip(1);
    let mut out: Vec<(String, String)> = Vec::new();
    let mut i: usize = 1;
    assert(lv.take(0) =~= Seq::<Seq<char>>::empty());
    assert(pairs_view(out@) =~= Seq::<(Seq<char>, Seq<char>)>::empty());
    while i < ls.len()
        invariant
            1 <= i <= ls@.len(),
            lv == char_lines_view(ls@).skip(1),
            pairs_view(out@) == response_headers(lv.take(i - 1)),
        decreases ls.len() - i,
    {
        assert(lv.take(i as int).drop_last() =~= lv.take(i - 1));
        assert(lv.take(i as int).last() == ls@[i as int]@);
        let line = &ls[i];
        proof {
            lemma_index_of(line@, ':', 0);
        }
        match find_char(line.as_slice(), ':', 0) {
            Some(k) => {
                let key = chars_range(line.as_slice(), 0, k);
                let value = chars_range(line.as_slice(), k + 1, line.len());
                assert(key@ =~= line@.take(k as int));
                assert(value@ =~= line@.skip(k + 1));
                let key_trimmed = trimmed_string(key.as_slice());
                let key_lower = to_lowercase(key_trimmed.as_str());
                let value_trimmed = trimmed_string(value.as_slice());
                let ghost before = pairs_view(out@);
                out.push((key_lower, value_trimmed));
                assert(pairs_view(out@) =~= before.push((key_lower@, value_trimmed@)));
            },
            None => {},
        }
        i += 1;
    }
    assert(lv.take(ls.len() - 1) =~= lv);
    out
}

/// Parses a raw HTTP response into status, headers, and body.
pub fn parse_response(raw: &[u8]) -> (r: Result<HttpResponse, HttpError>)
    ensures
        match response_spec(raw@) {
            Ok((code, hs, body)) => r matches Ok(x) && x.status_code == code && pairs_view(
                x.headers@,
            ) == hs && x.body@ == body,
            Err(e) => r matches Err(x) && x@ == e,
        },
{
    let header_end = match find_header_end(raw) {
        Some(i) => i,
        None => {
            return Err(
                HttpError::InvalidResponse(String::from_str("could not find end of HTTP headers")),
            );
        },
    };
    let header_bytes = slice_range(raw, 0, header_end);
    assert(header_bytes@ =~= raw@.take(header_end as int));
    let raw_body = slice_from(raw, header_end + 4);
    let header_str = match str_from_utf8(header_bytes) {
        Ok(t) => t,
        Err(m) => {
            return Err(HttpError::InvalidResponse(m));
        },
    };
    let text = str_chars(header_str);
    let ls = split_lines(text.as_slice());
    if ls.len() == 0 {
        return Err(HttpError::InvalidResponse(String::from_str("empty response")));
    }
    assert(char_lines_view(ls@)[0] == ls@[0]@);
    let status_line = string_from_chars(ls[0].as_slice());
    let status_code = match parse_status_code(status_line.as_str()) {
        Ok(c) => c,
        Err(e) => {
            return Err(e);
        },
    };
    let headers = collect_headers(ls.as_slice());
    let body_data = if header_has_token(headers.as_slice(), "transfer-encoding", "chunked") {
        match decode_chunked(raw_body) {
            Ok(d) => d,
            Err(e) => {
                return Err(e);
            },
        }
    } else {
        slice_to_vec(raw_body)
    };
    let body = if header_has_token(headers.as_slice(), "content-encoding", "gzip") {
        match decompress_gzip(body_data.as_slice()) {
            Ok(b) => b,
            Err(e) => {
                return Err(e);
            },
        }
    } else {
        body_data
    };
    Ok(HttpResponse { status_code, headers, body })
}

/// A header lookup finds the value of the first header with the given
/// name, and finds nothing only when no header has that name.
pub proof fn law_header_lookup(headers: Seq<(Seq<char>, Seq<char>)>, key: Seq<char>)
    ensures
        header_lookup(headers, key) is None <==> forall|i: int|
            0 <= i < headers.len() ==> (#[trigger] headers[i]).0 != key,
        header_lookup(headers, key) is Some ==> exists|i: int|
            0 <= i < headers.len() && (#[trigger] headers[i]).0 == key && headers[i].1 == header_lookup(
                headers,
                key,
            ).unwrap() && forall|j: int| 0 <= j < i ==> (#[trigger] headers[j]).0 != key,
    decreases headers.len(),
{
    if headers.len() > 0 {
        let rest = headers.drop_first();
        law_header_lookup(rest, key);
        if headers[0].0 != key {
            assert forall|i: int| 1 <= i < headers.len() implies headers[i] == rest[i - 1] by {}
            if header_lookup(rest, key) is Some {
                let i = choose|i: int|
                    0 <= i < rest.len() && (#[trigger] rest[i]).0 == key && rest[i].1 == header_lookup(
                        rest,
                        key,
                    ).unwrap() && forall|j: int| 0 <= j < i ==> (#[trigger] rest[j]).0 != key;
                assert(headers[i + 1] == rest[i]);
                assert forall|j: int| 0 <= j < i + 1 implies (#[trigger] headers[j]).0 != key by {
                    if j > 0 {
                        assert(headers[j] == rest[j - 1]);
                    }
                }
            }
        } else {
            assert(headers[0].0 == key);
        }
    }
}

/// The first `c` in `s` is at `k` when it is there and nowhere before.
proof fn lemma_first_at(s: Seq<char>, c: char, k: int)
    requires
        0 <= k < s.len(),
        s[k] == c,
        forall|j: int| 0 <= j < k ==> s[j] != c,
    ensures
        index_of(s, c, 0) == Some(k),
{
    lemma_index_of(s, c, 0);
}

/// Where `c` does not occur, it is not found.
proof fn lemma_first_none(s: Seq<char>, c: char)
    requires
        forall|j: int| 0 <= j < s.len() ==> s[j] != c,
    ensures
        index_of(s, c, 0) is None,
{
    lemma_index_of(s, c, 0);
}

/// The last `c` in `s` is at `k` when it is there and nowhere after; where
/// `c` does not occur, there is no last one.
proof fn lemma_last_at(s: Seq<char>, c: char, k: int)
    requires
        forall|j: int| 0 <= j < s.len() && j != k ==> s[j] != c,
        0 <= k < s.len() ==> s[k] == c,
    ensures
        0 <= k < s.len() ==> last_index_of(s, c) == Some(k),
        !(0 <= k < s.len()) ==> last_index_of(s, c) is None,
    decreases s.len(),
{
    if s.len() > 0 && s.last() != c {
        lemma_last_at(s.drop_last(), c, k);
    }
}

/// The decimal text of a port: digits only, whose UTF-8 bytes parse back
/// to the port.
proof fn lemma_port_text(port: u16)
    ensures
        ({
            let d = ascii_chars(decimal(port as nat));
            &&& d.len() >= 1
            &&& forall|j: int| 0 <= j < d.len() ==> '0' <= #[trigger] d[j] <= '9'
            &&& parse_unsigned(encode_utf8(d), 65535) == Some(port as nat)
        }),
{
    lemma_decimal_text(port as nat, 65535);
}

/// An URL that starts and ends with something other than whitespace is
/// its own trimmed form.
proof fn lemma_trim_unchanged(s: Seq<char>)
    requires
        s.len() > 0,
        !whitespace(s[0]),
        !whitespace(s.last()),
    ensures
        trim(s) == s,
{
}

/// The URL with the given parts: scheme, host, `:port` when a port is
/// given, and path.
pub open spec fn url_of(tls: bool, host: Seq<char>, port: Option<u16>, path: Seq<char>) -> Seq<char> {
    (if tls {
        "https://"@
    } else {
        "http://"@
    }) + host + match port {
        Some(p) => ":"@ + ascii_chars(decimal(p as nat)),
        None => Seq::<char>::empty(),
    } + path
}

/// A host name as it stands in an URL: not empty, with no `/`, `:` or
/// whitespace in it.
pub open spec fn plain_host(host: Seq<char>) -> bool {
    host.len() > 0 && forall|j: int|
        0 <= j < host.len() ==> #[trigger] host[j] != '/' && host[j] != ':' && !whitespace(host[j])
}

/// A path as it stands in an URL: empty, or starting with `/`, with no
/// whitespace in it.
pub open spec fn plain_path(path: Seq<char>) -> bool {
    (path.len() == 0 || path[0] == '/') && forall|j: int|
        0 <= j < path.len() ==> !whitespace(#[trigger] path[j])
}

/// The scheme an URL starts with.
pub open spec fn scheme_text(tls: bool) -> Seq<char> {
    if tls {
        "https://"@
    } else {
        "http://"@
    }
}

/// The `:port` part of an URL, empty when no port is written.
pub open spec fn port_text(port: Option<u16>) -> Seq<char> {
    match port {
        Some(p) => ":"@ + ascii_chars(decimal(p as nat)),
        None => Seq::<char>::empty(),
    }
}

/// After its scheme, an URL without surrounding whitespace is read from
/// the text that follows the scheme.
proof fn lemma_url_scheme(tls: bool, rest: Seq<char>)
    requires
        rest.len() > 0,
        !whitespace(rest.last()),
    ensures
        ({
            let u = scheme_text(tls) + rest;
            &&& trim(u) == u
            &&& starts_with(u, "https://"@) == tls
            &&& (tls || starts_with(u, "http://"@))
            &&& u.skip(scheme_text(tls).len() as int) == rest
        }),
{
    reveal_strlit("https://");
    reveal_strlit("http://");
    let scheme = scheme_text(tls);
    let u = scheme + rest;
    let sl = scheme.len() as int;
    assert(u[0] == 'h');
    assert(u.last() == rest.last());
    lemma_trim_unchanged(u);
    assert(u.subrange(0, sl) =~= scheme);
    if !tls {
        assert(u[4] == ':');
        if starts_with(u, "https://"@) {
            assert(u.subrange(0, 8)[4] == 's');
        }
    }
    assert(u.skip(sl) =~= rest);
}

/// The text after the scheme splits into host, port and path.
proof fn lemma_url_rest(host: Seq<char>, port: Option<u16>, path: Seq<char>)
    requires
        plain_host(host),
        plain_path(path),
    ensures
        ({
            let hp = host + port_text(port);
            let rest = hp + path;
            &&& rest.len() > 0 && !whitespace(rest.last())
            &&& path.len() > 0 ==> index_of(rest, '/', 0) == Some(hp.len() as int) && rest.take(
                hp.len() as int,
            ) == hp && rest.skip(hp.len() as int) == path
            &&& path.len() == 0 ==> index_of(rest, '/', 0) is None && rest == hp
            &&& port is None ==> last_index_of(hp, ':') is None && hp == host
            &&& port matches Some(p) ==> last_index_of(hp, ':') == Some(host.len() as int) && hp.take(
                host.len() as int,
            ) == host && hp.skip(host.len() as int + 1) == ascii_chars(decimal(p as nat))
                && parse_unsigned(encode_utf8(ascii_chars(decimal(p as nat))), 65535) == Some(
                p as nat,
            )
        }),
{
    reveal_strlit(":");
    let pt = port_text(port);
    if let Some(p) = port {
        lemma_port_text(p);
    }
    let hp = host + pt;
    let rest = hp + path;
    assert forall|j: int| 0 <= j < hp.len() implies #[trigger] hp[j] != '/' && (j != host.len()
        ==> hp[j] != ':') && !whitespace(hp[j]) by {
        if j >= host.len() {
            assert(hp[j] == pt[j - host.len()]);
            if let Some(p) = port {
                if j > host.len() {
                    assert(pt[j - host.len()] == ascii_chars(decimal(p as nat))[j - host.len() - 1]);
                }
            }
        }
    }
    if path.len() > 0 {
        assert(rest.last() == path.last());
        assert(rest[hp.len() as int] == '/');
        lemma_first_at(rest, '/', hp.len() as int);
        assert(rest.take(hp.len() as int) =~= hp);
        assert(rest.skip(hp.len() as int) =~= path);
    } else {
        assert(rest =~= hp);
        assert(rest.last() == hp[hp.len() - 1]);
        lemma_first_none(rest, '/');
    }
    match port {
        Some(p) => {
            lemma_last_at(hp, ':', host.len() as int);
            assert(hp.take(host.len() as int) =~= host);
            assert(hp.skip(host.len() as int + 1) =~= ascii_chars(decimal(p as nat)));
        },
        None => {
            assert(hp =~= host);
            lemma_last_at(hp, ':', -1);
        },
    }
}

/// An URL gives back the parts it was made of: the host, the port written
/// after `:` (80 for `http`, 443 for `https` when none is written), the
/// path with its query (`/` when there is none), and whether the scheme is
/// `https`.
#[verifier::rlimit(60)]
pub proof fn law_parse_url(tls: bool, host: Seq<char>, port: Option<u16>, path: Seq<char>)
    requires
        plain_host(host),
        plain_path(path),
    ensures
        parse_url_spec(url_of(tls, host, port, path)) == Ok::<(Seq<char>, u16, Seq<char>, bool), HttpFailure>(
            (
                host,
                match port {
                    Some(p) => p,
                    None => if tls {
                        443u16
                    } else {
                        80u16
                    },
                },
                if path.len() == 0 {
                    "/"@
                } else {
                    path
                },
                tls,
            ),
        ),
{
    let rest = host + port_text(port) + path;
    lemma_url_rest(host, port, path);
    lemma_url_scheme(tls, rest);
    let u = url_of(tls, host, port, path);
    assert(u =~= scheme_text(tls) + rest);
    let after = if tls {
        u.skip("https://"@.len() as int)
    } else {
        u.skip("http://"@.len() as int)
    };
    assert(after == rest);
    let hp = host + port_text(port);
    let host_port = match index_of(after, '/', 0) {
        Some(i) => after.take(i),
        None => after,
    };
    assert(host_port == hp);
}

/// A status line `VERSION CODE REASON` gives the code written after the
/// version, whatever the reason says (and with no reason too).
pub proof fn law_status_code(version: Seq<char>, code: u16, reason: Seq<char>)
    requires
        forall|j: int| 0 <= j < version.len() ==> version[j] != ' ',
    ensures
        status_code_spec(version + " "@ + ascii_chars(decimal(code as nat)) + " "@ + reason) == Ok::<
            u16,
            HttpFailure,
        >(code),
        status_code_spec(version + " "@ + ascii_chars(decimal(code as nat))) == Ok::<u16, HttpFailure>(
            code,
        ),
{
    reveal_strlit(" ");
    lemma_port_text(code);
    let d = ascii_chars(decimal(code as nat));
    let v = version.len() as int;
    let head = version + " "@ + d;
    let full = head + " "@ + reason;
    // The first space ends the version; the digits hold none.
    assert(head[v] == ' ');
    lemma_index_of(head, ' ', 0);
    assert(index_of(head, ' ', 0) == Some(v)) by {
        if let Some(j) = index_of(head, ' ', 0) {
            if j < v {
                assert(head[j] == version[j]);
            }
        }
    }
    lemma_index_of(head, ' ', v + 1);
    assert forall|j: int| v + 1 <= j < head.len() implies head[j] != ' ' by {
        assert(head[j] == d[j - v - 1]);
    }
    assert(head.skip(v + 1) =~= d);
    assert(full[v] == ' ');
    lemma_index_of(full, ' ', 0);
    assert(index_of(full, ' ', 0) == Some(v)) by {
        if let Some(j) = index_of(full, ' ', 0) {
            if j < v {
                assert(full[j] == version[j]);
            }
        }
    }
    let e = head.len() as int;
    assert(full[e] == ' ');
    lemma_index_of(full, ' ', v + 1);
    assert(index_of(full, ' ', v + 1) == Some(e)) by {
        if let Some(j) = index_of(full, ' ', v + 1) {
            if j < e {
                assert(full[j] == d[j - v - 1]);
            }
        }
    }
    assert(full.subrange(v + 1, e) =~= d);
}

} // verus!
