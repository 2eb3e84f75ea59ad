//! The crate's top-level error type, which any of the modules' errors
//! converts into.
use vstd::prelude::*;
use vstd::string::StringSliceAdditionalSpecFns;

use crate::bencode::BencodeError;
use crate::config::{config_message, ConfigError};
use crate::engine::{engine_message, EngineError};
use crate::network::http::{http_message, HttpError};
use crate::network::tcp::{tcp_message, TcpError};
use crate::proxy::{proxy_message, ProxyError};
use crate::torrent::TorrentError;
use crate::tracker::response::TrackerResponseError;
use crate::tracker::scrape::ScrapeError;

verus! {

/// Top-level error type for the crate.
#[derive(Debug)]
#[non_exhaustive]
pub enum Error {
    /// An error occurred during BEncode decoding or encoding.
    Bencode(BencodeError),
    /// An error occurred during torrent parsing.
    Torrent(TorrentError),
    /// An I/O error occurred, with its message.
    Io(String),
    /// A TCP network error occurred.
    Tcp(TcpError),
    /// A proxy error occurred.
    Proxy(ProxyError),
    /// An HTTP error occurred.
    Http(HttpError),
    /// A tracker response error occurred.
    TrackerResponse(TrackerResponseError),
    /// A scrape error occurred.
    Scrape(ScrapeError),
    /// An engine error occurred.
    Engine(EngineError),
    /// A configuration error occurred.
    Config(ConfigError),
}

/// Whether `m` is the description of `e`: the inner error's description
/// after a prefix that names the kind of error.
pub open spec fn error_message(e: Error, m: Seq<char>) -> bool {
    match e {
        Error::Bencode(e) => m == "bencode error: "@ + e@.message(),
        Error::Torrent(e) => m == "torrent error: "@ + e@.message(),
        Error::Io(s) => m == "io error: "@ + s@,
        Error::Tcp(e) => "tcp error: "@.is_prefix_of(m) && tcp_message(e, m.skip("tcp error: "@.len() as int)),
        Error::Proxy(e) => "proxy error: "@.is_prefix_of(m) && proxy_message(e@, m.skip("proxy error: "@.len() as int)),
        Error::Http(e) => "http error: "@.is_prefix_of(m) && http_message(e@, m.skip("http error: "@.len() as int)),
        Error::TrackerResponse(e) => m == "tracker response error: "@ + e@.message(),
        Error::Scrape(e) => m == "scrape error: "@ + e@.message(),
        Error::Engine(e) => "engine error: "@.is_prefix_of(m) && engine_message(e, m.skip("engine error: "@.len() as int)),
        Error::Config(e) => m == "config error: "@ + config_message(e),
    }
}

impl Error {
    /// The human-readable description of the error.
    pub fn message(&self) -> (r: String)
        ensures
            error_message(*self, r@),
    {
        match self {
            Error::Bencode(e) => {
                let inner = e.message();
                String::from_str("bencode error: ").concat(inner.as_str())
            },
            Error::Torrent(e) => {
                let inner = e.message();
                String::from_str("torrent error: ").concat(inner.as_str())
            },
            Error::Io(s) => String::from_str("io error: ").concat(s.as_str()),
            Error::Tcp(e) => {
                let inner = e.message();
                let r = String::from_str("tcp error: ").concat(inner.as_str());
                proof {
                    reveal_strlit("tcp error: ");
                    assert(r@.skip("tcp error: "@.len() as int) =~= inner@);
                }
                r
            },
            Error::Proxy(e) => {
                let inner = e.message();
                let r = String::from_str("proxy error: ").concat(inner.as_str());
                proof {
                    reveal_strlit("proxy error: ");
                    assert(r@.skip("proxy error: "@.len() as int) =~= inner@);
                }
                r
            },
            Error::Http(e) => {
                let inner = e.message();
                let r = String::from_str("http error: ").concat(inner.as_str());
                proof {
                    reveal_strlit("http error: ");
                    assert(r@.skip("http error: "@.len() as int) =~= inner@);
                }
                r
            },
            Error::TrackerResponse(e) => {
                let inner = e.message();
                String::from_str("tracker response error: ").concat(inner.as_str())
            },
            Error::Scrape(e) => {
                let inner = e.message();
                String::from_str("scrape error: ").concat(inner.as_str())
            },
            Error::Engine(e) => {
                let inner = e.message();
                let r = String::from_str("engine error: ").concat(inner.as_str());
                proof {
                    reveal_strlit("engine error: ");
                    assert(r@.skip("engine error: "@.len() as int) =~= inner@);
                }
                r
            },
            Error::Config(e) => {
                let inner = e.message();
                String::from_str("config error: ").concat(inner.as_str())
            },
        }
    }
}

impl From<BencodeError> for Error {
    fn from(e: BencodeError) -> (r: Error) {
        Error::Bencode(e)
    }
}

impl vstd::std_specs::convert::FromSpecImpl<BencodeError> for Error {
    open spec fn obeys_from_spec() -> bool {
        true
    }

    open spec fn from_spec(e: BencodeError) -> Error {
        Error::Bencode(e)
    }
}

impl From<TorrentError> for Error {
    fn from(e: TorrentError) -> (r: Error) {
        Error::Torrent(e)
    }
}

impl vstd::std_specs::convert::FromSpecImpl<TorrentError> for Error {
    open spec fn obeys_from_spec() -> bool {
        true
    }

    open spec fn from_spec(e: TorrentError) -> Error {
        Error::Torrent(e)
    }
}

impl From<TcpError> for Error {
    fn from(e: TcpError) -> (r: Error) {
        Error::Tcp(e)
    }
}

impl vstd::std_specs::convert::FromSpecImpl<TcpError> for Error {
    open spec fn obeys_from_spec() -> bool {
        true
    }

    open spec fn from_spec(e: TcpError) -> Error {
        Error::Tcp(e)
    }
}

impl From<ProxyError> for Error {
    fn from(e: ProxyError) -> (r: Error) {
        Error::Proxy(e)
    }
}

impl vstd::std_specs::convert::FromSpecImpl<ProxyError> for Error {
    open spec fn obeys_from_spec() -> bool {
        true
    }

    open spec fn from_spec(e: ProxyError) -> Error {
        Error::Proxy(e)
    }
}

impl From<HttpError> for Error {
    fn from(e: HttpError) -> (r: Error) {
        Error::Http(e)
    }
}

impl vstd::std_specs::convert::FromSpecImpl<HttpError> for Error {
    open spec fn obeys_from_spec() -> bool {
        true
    }

    open spec fn from_spec(e: HttpError) -> Error {
        Error::Http(e)
    }
}

impl From<TrackerResponseError> for Error {
    fn from(e: TrackerResponseError) -> (r: Error) {
        Error::TrackerResponse(e)
    }
}

impl vstd::std_specs::convert::FromSpecImpl<TrackerResponseError> for Error {
    open spec fn obeys_from_spec() -> bool {
        true
    }

    open spec fn from_spec(e: TrackerResponseError) -> Error {
        Error::TrackerResponse(e)
    }
}

impl From<ScrapeError> for Error {
    fn from(e: ScrapeError) -> (r: Error) {
        Error::Scrape(e)
    }
}

impl vstd::std_specs::convert::FromSpecImpl<ScrapeError> for Error {
    open spec fn obeys_from_spec() -> bool {
        true
    }

    open spec fn from_spec(e: ScrapeError) -> Error {
        Error::Scrape(e)
    }
}

impl From<EngineError> for Error {
    fn from(e: EngineError) -> (r: Error) {
        Error::Engine(e)
    }
}

impl vstd::std_specs::convert::FromSpecImpl<EngineError> for Error {
    open spec fn obeys_from_spec() -> bool {
        true
    }

    open spec fn from_spec(e: EngineError) -> Error {
        Error::Engine(e)
    }
}

impl From<ConfigError> for Error {
    fn from(e: ConfigError) -> (r: Error) {
        Error::Config(e)
    }
}

impl vstd::std_specs::convert::FromSpecImpl<ConfigError> for Error {
    open spec fn obeys_from_spec() -> bool {
        true
    }

    open spec fn from_spec(e: ConfigError) -> Error {
        Error::Config(e)
    }
}

} // verus!
