//! Parsed torrent metadata.
use vstd::prelude::*;

verus! {

/// Represents a single file within a torrent.
#[derive(Debug, Clone, PartialEq, Eq)]
pub struct TorrentFile {
    /// The path components of the file (e.g., `["dir", "subdir", "file.txt"]`).
    pub path: Vec<String>,
    /// The size of the file in bytes.
    pub length: u64,
}

/// The mathematical model of a [`TorrentFile`]: path components and length.
pub open spec fn file_model(f: TorrentFile) -> (Seq<Seq<char>>, u64) {
    (f.path@.map_values(|p: String| p@), f.length)
}

/// The texts of a list of strings.
pub open spec fn texts(v: Seq<String>) -> Seq<Seq<char>> {
    v.map_values(|p: String| p@)
}

/// Parsed representation of a .torrent file.
#[derive(Debug, Clone, PartialEq, Eq)]
pub struct TorrentMetainfo {
    /// The primary tracker announce URL.
    pub announce: String,
    /// Optional list of tracker tier lists (BEP 12).
    pub announce_list: Option<Vec<Vec<String>>>,
    /// The name of the torrent (typically the root directory or single file name).
    pub name: String,
    /// The number of bytes per piece.
    pub piece_length: u64,
    /// The concatenated SHA1 hashes of each piece (each hash is 20 bytes).
    pub pieces: Vec<u8>,
    /// If this is a single-file torrent, the file length.
    pub length: Option<u64>,
    /// If this is a multi-file torrent, the list of files.
    pub files: Option<Vec<TorrentFile>>,
    /// Optional comment embedded in the torrent.
    pub comment: Option<String>,
    /// Optional creator string.
    pub created_by: Option<String>,
    /// Optional creation timestamp (Unix epoch seconds).
    pub creation_date: Option<i64>,
    /// The 20-byte SHA1 hash of the bencoded info dictionary.
    pub info_hash: [u8; 20],
}

/// The mathematical model of a [`TorrentMetainfo`].
pub struct MetainfoModel {
    pub announce: Seq<char>,
    pub announce_list: Option<Seq<Seq<Seq<char>>>>,
    pub name: Seq<char>,
    pub piece_length: u64,
    pub pieces: Seq<u8>,
    pub length: Option<u64>,
    pub files: Option<Seq<(Seq<Seq<char>>, u64)>>,
    pub comment: Option<Seq<char>>,
    pub created_by: Option<Seq<char>>,
    pub creation_date: Option<i64>,
    pub info_hash: Seq<u8>,
}

/// The text of an optional string.
pub open spec fn opt_text(s: Option<String>) -> Option<Seq<char>> {
    match s {
        Some(t) => Some(t@),
        None => None,
    }
}

impl View for TorrentMetainfo {
    type V = MetainfoModel;

    open spec fn view(&self) -> MetainfoModel {
        MetainfoModel {
            announce: self.announce@,
            announce_list: match self.announce_list {
                Some(tiers) => Some(tiers@.map_values(|t: Vec<String>| texts(t@))),
                None => None,
            },
            name: self.name@,
            piece_length: self.piece_length,
            pieces: self.pieces@,
            length: self.length,
            files: match self.files {
                Some(fs) => Some(fs@.map_values(|f: TorrentFile| file_model(f))),
                None => None,
            },
            comment: opt_text(self.comment),
            created_by: opt_text(self.created_by),
            creation_date: self.creation_date,
            info_hash: self.info_hash@,
        }
    }
}

/// The sum of the lengths of files.
pub open spec fn files_total(files: Seq<TorrentFile>) -> nat
    decreases files.len(),
{
    if files.len() == 0 {
        0
    } else {
        files_total(files.drop_last()) + files.last().length as nat
    }
}

impl TorrentMetainfo {
    /// The total size of all files, as a number.
    pub open spec fn spec_total_size(&self) -> nat {
        match self.length {
            Some(l) => l as nat,
            None => match self.files {
                Some(fs) => files_total(fs@),
                None => 0,
            },
        }
    }

    /// Returns the total size of all files in the torrent.
    pub fn total_size(&self) -> (r: u64)
        requires
            self.spec_total_size() <= u64::MAX,
        ensures
            r == self.spec_total_size(),
    {
        if let Some(length) = self.length {
            length
        } else if let Some(files) = &self.files {
            let mut total: u64 = 0;
            let mut i: usize = 0;
            while i < files.len()
                invariant
                    i <= files.len(),
                    self.files == Some(*files),
                    self.length is None,
                    files_total(files@) <= u64::MAX,
                    total == files_total(files@.take(i as int)),
                decreases files.len() - i,
            {
                proof {
                    assert(files@.take(i + 1).drop_last() =~= files@.take(i as int));
                    lemma_files_total_prefix(files@, i + 1);
                }
                total = total + files[i].length;
                i += 1;
            }
            assert(files@.take(files.len() as int) =~= files@);
            total
        } else {
            0
        }
    }

    /// The total size in bytes, or `None` when it does not fit in a `u64`.
    pub fn checked_total_size(&self) -> (r: Option<u64>)
        ensures
            r == if self.spec_total_size() <= u64::MAX {
                Some(self.spec_total_size() as u64)
            } else {
                None::<u64>
            },
    {
        if let Some(length) = self.length {
            Some(length)
        } else if let Some(files) = &self.files {
            let mut total: u64 = 0;
            let mut i: usize = 0;
            while i < files.len()
                invariant
                    i <= files.len(),
                    self.files == Some(*files),
                    self.length is None,
                    total == files_total(files@.take(i as int)),
                decreases files.len() - i,
            {
                proof {
                    assert(files@.take(i + 1).drop_last() =~= files@.take(i as int));
                    lemma_files_total_prefix(files@, i + 1);
                }
                match total.checked_add(files[i].length) {
                    Some(t) => total = t,
                    None => return None,
                }
                i += 1;
            }
            assert(files@.take(files.len() as int) =~= files@);
            Some(total)
        } else {
            Some(0)
        }
    }

    /// Returns the number of pieces in the torrent.
    pub fn piece_count(&self) -> (r: usize)
        ensures
            r == self.pieces@.len() / 20,
    {
        self.pieces.len() / 20
    }

    /// Returns `true` if this is a single-file torrent.
    pub fn is_single_file(&self) -> (r: bool)
        ensures
            r == self.length is Some,
    {
        self.length.is_some()
    }

    /// Returns `true` if this is a multi-file torrent.
    pub fn is_multi_file(&self) -> (r: bool)
        ensures
            r == self.files is Some,
    {
        self.files.is_some()
    }
}

proof fn lemma_files_total_prefix(files: Seq<TorrentFile>, k: int)
    requires
        0 <= k <= files.len(),
    ensures
        files_total(files.take(k)) <= files_total(files),
    decreases files.len(),
{
    if k < files.len() {
        lemma_files_total_prefix(files.drop_last(), k);
        assert(files.drop_last().take(k) =~= files.take(k));
    } else {
        assert(files.take(k) =~= files);
    }
}

/// The model of a torrent's metadata holds each of its fields under the
/// same name: texts by their characters, numbers and bytes as they are.
pub proof fn law_metainfo_view(t: TorrentMetainfo)
    ensures
        t@.announce == t.announce@,
        t@.name == t.name@,
        t@.piece_length == t.piece_length,
        t@.pieces == t.pieces@,
        t@.length == t.length,
        t.files is None <==> t@.files is None,
        t.comment is None <==> t@.comment is None,
        t.comment is Some ==> t@.comment == Some(t.comment.unwrap()@),
        t.created_by is None <==> t@.created_by is None,
        t.created_by is Some ==> t@.created_by == Some(t.created_by.unwrap()@),
        t@.creation_date == t.creation_date,
        t@.info_hash == t.info_hash@,
{
}

} // verus!
