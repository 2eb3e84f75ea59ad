//! Torrent file (.torrent) parsing and metadata types.
pub mod error;
pub mod parser;
pub mod types;

pub use error::{TorrentError, TorrentFailure};
pub use parser::parse;
pub use types::{MetainfoModel, TorrentFile, TorrentMetainfo};
