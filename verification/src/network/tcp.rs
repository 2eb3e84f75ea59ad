//! Errors of the TCP socket layer, and their messages.
use std::time::Duration;
use vstd::prelude::*;
use vstd::string::StringSliceAdditionalSpecFns;

verus! {

/// Errors that can occur during TCP operations.
#[derive(Debug)]
pub enum TcpError {
    /// Connection attempt timed out after the given time.
    Timeout(Duration),
    /// Connection was refused by the remote host (`host:port`).
    ConnectionRefused(String),
    /// DNS resolution failed for `host`, with the resolver's message.
    DnsFailure { host: String, source: String },
    /// A general I/O error occurred, with its message.
    Io(String),
}

/// `d` written as `Debug` writes a `Duration` (such as `5s` or `1.5ms`).
/// The contract says nothing of the text: the format of a duration is not
/// specified by the standard library's documentation.
#[verifier::external_body]
fn duration_debug(d: &Duration) -> String {
    format!("{:?}", d)
}

/// Whether `m` is the description of `e`. That of a timeout is
/// `connection timed out after ` followed by the duration's text, which is
/// left open.
pub open spec fn tcp_message(e: TcpError, m: Seq<char>) -> bool {
    match e {
        TcpError::Timeout(_) => "connection timed out after "@.is_prefix_of(m),
        TcpError::ConnectionRefused(a) => m == "connection refused: "@ + a@,
        TcpError::DnsFailure { host, source } => m == "DNS resolution failed for "@ + host@ + ": "@
            + source@,
        TcpError::Io(s) => m == "tcp io error: "@ + s@,
    }
}

impl TcpError {
    /// The human-readable description of the error.
    pub fn message(&self) -> (r: String)
        ensures
            tcp_message(*self, r@),
    {
        match self {
            TcpError::Timeout(d) => {
                let r = String::from_str("connection timed out after ").concat(
                    duration_debug(d).as_str(),
                );
                r
            },
            TcpError::ConnectionRefused(a) => String::from_str("connection refused: ").concat(
                a.as_str(),
            ),
            TcpError::DnsFailure { host, source } => {
                let r = String::from_str("DNS resolution failed for ").concat(host.as_str());
                let r = r.concat(": ");
                r.concat(source.as_str())
            },
            TcpError::Io(s) => String::from_str("tcp io error: ").concat(s.as_str()),
        }
    }
}

} // verus!
