//! Errors of torrent file parsing.
use vstd::prelude::*;

verus! {

/// Errors that can occur during torrent file parsing.
#[derive(Debug, PartialEq, Eq)]
pub enum TorrentError {
    /// A required field was missing from the torrent metadata.
    MissingField(String),
    /// The torrent structure was invalid.
    InvalidStructure(String),
    /// An error occurred during BEncode decoding.
    Bencode(String),
}

/// The mathematical model of a [`TorrentError`].
pub enum TorrentFailure {
    MissingField(Seq<char>),
    InvalidStructure(Seq<char>),
    Bencode(Seq<char>),
}

impl View for TorrentError {
    type V = TorrentFailure;

    open spec fn view(&self) -> TorrentFailure {
        match self {
            TorrentError::MissingField(m) => TorrentFailure::MissingField(m@),
            TorrentError::InvalidStructure(m) => TorrentFailure::InvalidStructure(m@),
            TorrentError::Bencode(m) => TorrentFailure::Bencode(m@),
        }
    }
}

impl TorrentFailure {
    /// The human-readable description of the failure.
    pub open spec fn message(self) -> Seq<char> {
        match self {
            TorrentFailure::MissingField(m) => "missing required field: "@ + m,
            TorrentFailure::InvalidStructure(m) => "invalid torrent structure: "@ + m,
            TorrentFailure::Bencode(m) => "bencode decode error: "@ + m,
        }
    }
}

impl TorrentError {
    /// The human-readable description of the error.
    pub fn message(&self) -> (r: String)
        ensures
            r@ == self@.message(),
    {
        match self {
            TorrentError::MissingField(m) => String::from_str("missing required field: ").concat(
                m.as_str(),
            ),
            TorrentError::InvalidStructure(m) => String::from_str(
                "invalid torrent structure: ",
            ).concat(m.as_str()),
            TorrentError::Bencode(m) => String::from_str("bencode decode error: ").concat(
                m.as_str(),
            ),
        }
    }
}

} // verus!
