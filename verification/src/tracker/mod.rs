//! Tracker communication: announce requests, responses, and scrapes.
pub mod announce;
pub mod client;
pub mod response;
pub mod scrape;

pub use announce::{build_announce_url, build_headers, AnnounceParams};
pub use response::{Peer, TrackerResponse, TrackerResponseError};
pub use scrape::{announce_to_scrape_url, build_scrape_url, ScrapeError, ScrapeStats};
