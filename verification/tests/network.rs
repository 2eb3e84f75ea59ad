use flate2::write::GzEncoder;
use flate2::Compression;
use std::io::Write;
use ratiomaster::network::http::{
    build_get_request, decode_chunked, decompress_gzip, gzip_outcome, parse_response,
    parse_status_code, parse_url, HttpError, HttpResponse, HttpVersion, ParsedUrl,
};

#[test]
fn parse_url_basic() {
    let parsed = parse_url("http://tracker.example.com:6969/announce?info_hash=abc").unwrap();
    assert_eq!(parsed.host, "tracker.example.com");
    assert_eq!(parsed.port, 6969);
    assert_eq!(parsed.path_and_query, "/announce?info_hash=abc");
}

#[test]
fn parse_url_default_port() {
    let parsed = parse_url("http://example.com/path").unwrap();
    assert_eq!(parsed.host, "example.com");
    assert_eq!(parsed.port, 80);
    assert_eq!(parsed.path_and_query, "/path");
}

#[test]
fn parse_url_no_path() {
    let parsed = parse_url("http://example.com").unwrap();
    assert_eq!(parsed.path_and_query, "/");
}

#[test]
fn parse_url_https() {
    let parsed = parse_url("https://example.com/announce").unwrap();
    assert_eq!(parsed.host, "example.com");
    assert_eq!(parsed.port, 443);
    assert_eq!(parsed.path_and_query, "/announce");
    assert!(parsed.tls);
}

#[test]
fn parse_url_invalid_scheme() {
    assert!(parse_url("ftp://example.com").is_err());
}

#[test]
fn parse_url_errors_and_trimming() {
    match parse_url("  ftp://x  ") {
        Err(HttpError::InvalidResponse(m)) => assert_eq!(m, "unsupported URL scheme: ftp://x"),
        other => panic!("unexpected {other:?}"),
    }
    match parse_url("http://host:99999/") {
        Err(HttpError::InvalidResponse(m)) => assert_eq!(m, "invalid port: 99999"),
        other => panic!("unexpected {other:?}"),
    }
    let p = parse_url(" http://h:+81 ").unwrap();
    assert_eq!((p.host.as_str(), p.port, p.path_and_query.as_str(), p.tls), ("h", 81, "/", false));
}

#[test]
fn build_get_request_http10() {
    let parsed = ParsedUrl {
        host: "tracker.test".into(),
        port: 80,
        path_and_query: "/announce?x=1".into(),
        tls: false,
    };
    let headers = vec![("User-Agent".into(), "Test/1.0".into())];
    let req = build_get_request(&parsed, &headers, HttpVersion::Http10);
    assert!(req.starts_with("GET /announce?x=1 HTTP/1.0\r\n"));
    assert!(req.contains("Host: tracker.test\r\n"));
    assert!(req.contains("User-Agent: Test/1.0\r\n"));
    assert!(req.ends_with("\r\n\r\n"));
}

#[test]
fn build_get_request_http11() {
    let parsed = ParsedUrl { host: "example.com".into(), port: 8080, path_and_query: "/path".into(), tls: false };
    let req = build_get_request(&parsed, &[], HttpVersion::Http11);
    assert!(req.contains("HTTP/1.1"));
    assert_eq!(req, "GET /path HTTP/1.1\r\nHost: example.com\r\n\r\n");
}

#[test]
fn parse_response_basic() {
    let raw = b"HTTP/1.1 200 OK\r\nContent-Type: text/plain\r\n\r\nHello";
    let resp = parse_response(raw).unwrap();
    assert_eq!(resp.status_code, 200);
    assert_eq!(resp.header("content-type"), Some("text/plain"));
    assert_eq!(resp.body, b"Hello");
}

#[test]
fn parse_response_no_body() {
    let raw = b"HTTP/1.1 204 No Content\r\n\r\n";
    let resp = parse_response(raw).unwrap();
    assert_eq!(resp.status_code, 204);
    assert!(resp.body.is_empty());
}

#[test]
fn parse_response_302_redirect() {
    let raw = b"HTTP/1.1 302 Found\r\nLocation: http://other.com/path\r\n\r\n";
    let resp = parse_response(raw).unwrap();
    assert_eq!(resp.status_code, 302);
    assert_eq!(resp.header("location"), Some("http://other.com/path"));
}

#[test]
fn decode_chunked_basic() {
    let data = b"5\r\nHello\r\n6\r\n World\r\n0\r\n\r\n";
    let decoded = decode_chunked(data).unwrap();
    assert_eq!(decoded, b"Hello World");
}

#[test]
fn decode_chunked_single() {
    let data = b"d\r\nHello, World!\r\n0\r\n\r\n";
    let decoded = decode_chunked(data).unwrap();
    assert_eq!(decoded, b"Hello, World!");
}

#[test]
fn decode_chunked_with_extension() {
    let data = b"5;ext=val\r\nHello\r\n0\r\n\r\n";
    let decoded = decode_chunked(data).unwrap();
    assert_eq!(decoded, b"Hello");
}

#[test]
fn decode_chunked_partial_and_errors() {
    assert_eq!(decode_chunked(b"a\r\nabc").unwrap(), b"abc");
    assert_eq!(decode_chunked(b"no line end").unwrap(), b"");
    match decode_chunked(b"zz\r\nabc") {
        Err(HttpError::InvalidResponse(m)) => assert_eq!(m, "invalid chunk size: \"zz\""),
        other => panic!("unexpected {other:?}"),
    }
}

#[test]
fn decompress_gzip_roundtrip() {
    let plain = b"Hello, gzip world!";
    let mut encoder = GzEncoder::new(Vec::new(), Compression::default());
    encoder.write_all(plain).unwrap();
    let compressed = encoder.finish().unwrap();
    let decompressed = decompress_gzip(&compressed).unwrap();
    assert_eq!(decompressed, plain);
}

#[test]
fn decompress_gzip_rejects_garbage() {
    match decompress_gzip(b"not gzip") {
        Err(HttpError::InvalidResponse(m)) => assert!(m.starts_with("gzip decompression failed: ")),
        other => panic!("unexpected {other:?}"),
    }
    match gzip_outcome(Err("bad".to_string())) {
        Err(HttpError::InvalidResponse(m)) => assert_eq!(m, "gzip decompression failed: bad"),
        other => panic!("unexpected {other:?}"),
    }
}

#[test]
fn parse_response_with_chunked() {
    let raw = b"HTTP/1.1 200 OK\r\nTransfer-Encoding: chunked\r\n\r\n5\r\nHello\r\n0\r\n\r\n";
    let resp = parse_response(raw).unwrap();
    assert_eq!(resp.body, b"Hello");
}

#[test]
fn parse_response_with_gzip() {
    let body = b"compressed body data";
    let mut encoder = GzEncoder::new(Vec::new(), Compression::default());
    encoder.write_all(body).unwrap();
    let compressed = encoder.finish().unwrap();
    let mut raw = b"HTTP/1.1 200 OK\r\nContent-Encoding: gzip\r\n\r\n".to_vec();
    raw.extend_from_slice(&compressed);
    let resp = parse_response(&raw).unwrap();
    assert_eq!(resp.body, body);
}

#[test]
fn header_lookup_case_insensitive() {
    let resp = HttpResponse {
        status_code: 200,
        headers: vec![("content-type".into(), "text/html".into())],
        body: vec![],
    };
    assert_eq!(resp.header("Content-Type"), Some("text/html"));
    assert_eq!(resp.header("content-type"), Some("text/html"));
}

#[test]
fn parse_response_errors() {
    match parse_response(b"HTTP/1.1 200 OK\r\n") {
        Err(HttpError::InvalidResponse(m)) => assert_eq!(m, "could not find end of HTTP headers"),
        other => panic!("unexpected {other:?}"),
    }
    match parse_response(b"\r\n\r\n") {
        Err(HttpError::InvalidResponse(m)) => assert_eq!(m, "empty response"),
        other => panic!("unexpected {other:?}"),
    }
    match parse_status_code("HTTP/1.1") {
        Err(HttpError::InvalidResponse(m)) => assert_eq!(m, "invalid status line: \"HTTP/1.1\""),
        other => panic!("unexpected {other:?}"),
    }
    match parse_status_code("HTTP/1.1 2x0 OK") {
        Err(HttpError::InvalidResponse(m)) => assert_eq!(m, "invalid status code: \"2x0\""),
        other => panic!("unexpected {other:?}"),
    }
}

#[test]
fn parse_response_headers_lowercased_and_trimmed() {
    let raw = b"HTTP/1.0 200 OK\r\nX-Thing :  Value \r\nbroken line\r\n\r\nbody";
    let resp = parse_response(raw).unwrap();
    assert_eq!(resp.headers, vec![("x-thing".to_string(), "Value".to_string())]);
    assert_eq!(resp.body, b"body");
    assert_eq!(HttpVersion::Http10.as_str(), "HTTP/1.0");
}

#[test]
fn chunked_decoding_undoes_chunked_encoding() {
    let parts: Vec<Vec<u8>> = vec![b"Hello".to_vec(), vec![0xab; 300], b"\r\n;x".to_vec(), vec![7; 16]];
    let mut enc = Vec::new();
    for p in &parts {
        enc.extend_from_slice(format!("{:x}\r\n", p.len()).as_bytes());
        enc.extend_from_slice(p);
        enc.extend_from_slice(b"\r\n");
    }
    enc.extend_from_slice(b"0\r\n\r\n");
    assert_eq!(decode_chunked(&enc).unwrap(), parts.concat());
}
