//! Parsing of .torrent files.
use sha1::{Digest, Sha1};
use vstd::prelude::*;
use vstd::string::StringSliceAdditionalSpecFns;
use vstd::utf8::{encode_utf8, encode_utf8_decode_utf8, encode_utf8_valid_utf8};

use super::error::{TorrentError, TorrentFailure};
use super::types::{file_model, texts, MetainfoModel, TorrentFile, TorrentMetainfo};
use crate::bencode::decoder::{decode_spec, dict_value_span, lemma_raw_dict_value_found, raw_dict_value};
use crate::bencode::laws::lemma_parse_list_wf;
use crate::bencode::fields::{
    field_bytes, field_int, field_list, field_text, int_field, list_field, text_field,
};
use crate::bencode::value::lemma_models;
use crate::bencode::{decode, BValue, Bencoded};
use crate::text::{ascii_chars, decimal, i64_as_u64, push_decimal, slice_range, slice_to_vec, wrap_u64};

verus! {

broadcast use vstd::std_specs::vec::group_vec_axioms;

/// The SHA-1 digest of a byte string.
pub uninterp spec fn sha1_digest(data: Seq<u8>) -> Seq<u8>;

/// `Sha1::digest` of the `sha1` crate: the 20-byte SHA-1 digest of `data`.
#[verifier::external_body]
fn sha1(data: &[u8]) -> (r: [u8; 20])
    ensures
        r@ == sha1_digest(data@),
{
    Sha1::digest(data).into()
}

// ---------------------------------------------------------------------------
// Specification
// ---------------------------------------------------------------------------




/// The texts of the UTF-8 byte strings among `items`, in order; other
/// items are skipped.
pub open spec fn text_items(items: Seq<Bencoded>) -> Seq<Seq<char>>
    decreases items.len(),
{
    if items.len() == 0 {
        Seq::empty()
    } else {
        let r = text_items(items.drop_last());
        match items.last().text() {
            Some(t) => r.push(t),
            None => r,
        }
    }
}

/// The tiers among `items` (those that are lists), each as the texts of its
/// UTF-8 byte strings.
pub open spec fn tier_items(items: Seq<Bencoded>) -> Seq<Seq<Seq<char>>>
    decreases items.len(),
{
    if items.len() == 0 {
        Seq::empty()
    } else {
        let r = tier_items(items.drop_last());
        match items.last().list() {
            Some(urls) => r.push(text_items(urls)),
            None => r,
        }
    }
}

/// One entry of the `files` list of a multi-file torrent.
pub open spec fn file_spec(f: Bencoded) -> Result<(Seq<Seq<char>>, u64), TorrentFailure> {
    if f.dict() is None {
        Err(TorrentFailure::InvalidStructure("file entry is not a dictionary"@))
    } else {
        match field_int(f, "length".spec_bytes()) {
            None => Err(TorrentFailure::MissingField("file.length"@)),
            Some(len) => match field_list(f, "path".spec_bytes()) {
                None => Err(TorrentFailure::MissingField("file.path"@)),
                Some(parts) => {
                    let path = text_items(parts);
                    if path.len() == 0 {
                        Err(TorrentFailure::InvalidStructure("empty file path"@))
                    } else {
                        Ok((path, wrap_u64(len)))
                    }
                },
            },
        }
    }
}

/// The `files` list of a multi-file torrent; the first bad entry decides the
/// error.
pub open spec fn files_spec(fs: Seq<Bencoded>) -> Result<
    Seq<(Seq<Seq<char>>, u64)>,
    TorrentFailure,
>
    decreases fs.len(),
{
    if fs.len() == 0 {
        Ok(Seq::empty())
    } else {
        match files_spec(fs.drop_last()) {
            Err(e) => Err(e),
            Ok(acc) => match file_spec(fs.last()) {
                Err(e) => Err(e),
                Ok(f) => Ok(acc.push(f)),
            },
        }
    }
}

/// The message of a `pieces` string whose length is not a multiple of 20.
pub open spec fn pieces_message(len: nat) -> Seq<char> {
    "pieces length "@ + ascii_chars(decimal(len)) + " is not a multiple of 20"@
}

/// The metadata a decoded .torrent file holds; `info_raw` is the info
/// dictionary's bytes as they stand in the file.
pub open spec fn metainfo_spec(root: Bencoded, info_raw: Seq<u8>) -> Result<MetainfoModel, TorrentFailure> {
    if root.dict() is None {
        Err(TorrentFailure::InvalidStructure("root is not a dictionary"@))
    } else {
        match field_text(root, "announce".spec_bytes()) {
            None => Err(TorrentFailure::MissingField("announce"@)),
            Some(announce) => match root.get("info".spec_bytes()) {
                None => Err(TorrentFailure::MissingField("info"@)),
                Some(info) => if info.dict() is None {
                    Err(TorrentFailure::InvalidStructure("info is not a dictionary"@))
                } else {
                    match field_text(info, "name".spec_bytes()) {
                        None => Err(TorrentFailure::MissingField("info.name"@)),
                        Some(name) => match field_int(info, "piece length".spec_bytes()) {
                            None => Err(TorrentFailure::MissingField("info.piece length"@)),
                            Some(piece_length) => match info.get("pieces".spec_bytes()) {
                                Some(Bencoded::Str(pieces)) => if pieces.len() % 20 != 0 {
                                    Err(
                                        TorrentFailure::InvalidStructure(
                                            pieces_message(pieces.len()),
                                        ),
                                    )
                                } else {
                                    let length = match field_int(info, "length".spec_bytes()) {
                                        Some(l) => Some(wrap_u64(l)),
                                        None => None,
                                    };
                                    let files = if length is None {
                                        match field_list(info, "files".spec_bytes()) {
                                            None => Err(
                                                TorrentFailure::MissingField(
                                                    "info.length or info.files"@,
                                                ),
                                            ),
                                            Some(fs) => match files_spec(fs) {
                                                Err(e) => Err(e),
                                                Ok(parsed) => Ok(Some(parsed)),
                                            },
                                        }
                                    } else {
                                        Ok(None)
                                    };
                                    match files {
                                        Err(e) => Err(e),
                                        Ok(files) => Ok(
                                            MetainfoModel {
                                                announce,
                                                announce_list: match field_list(
                                                    root,
                                                    "announce-list".spec_bytes(),
                                                ) {
                                                    Some(tiers) => Some(tier_items(tiers)),
                                                    None => None,
                                                },
                                                name,
                                                piece_length: wrap_u64(piece_length),
                                                pieces,
                                                length,
                                                files,
                                                comment: field_text(root, "comment".spec_bytes()),
                                                created_by: field_text(
                                                    root,
                                                    "created by".spec_bytes(),
                                                ),
                                                creation_date: match field_int(
                                                    root,
                                                    "creation date".spec_bytes(),
                                                ) {
                                                    Some(d) => Some(d as i64),
                                                    None => None,
                                                },
                                                info_hash: sha1_digest(info_raw),
                                            },
                                        ),
                                    }
                                },
                                _ => Err(TorrentFailure::MissingField("info.pieces"@)),
                            },
                        },
                    }
                },
            },
        }
    }
}

/// The bytes of the root dictionary's `info` value, exactly as they stand
/// in the file (empty where there is none; see [`lemma_info_raw_found`]).
pub open spec fn info_raw(data: Seq<u8>) -> Seq<u8> {
    match raw_dict_value(data, 1, "info".spec_bytes(), 1) {
        Some((a, b)) => data.subrange(a, b),
        None => Seq::empty(),
    }
}

/// What parsing the bytes of a .torrent file yields. The info hash is the
/// SHA-1 of the info dictionary's raw bytes.
pub open spec fn parse_spec(data: Seq<u8>) -> Result<MetainfoModel, TorrentFailure> {
    match decode_spec(data) {
        Err(e) => Err(TorrentFailure::Bencode(e.message())),
        Ok(root) => metainfo_spec(root, info_raw(data)),
    }
}

/// In a file that decodes to a dictionary with an `info` entry, the raw
/// bytes of that entry are found where decoding read it.
pub proof fn lemma_info_raw_found(data: Seq<u8>)
    requires
        decode_spec(data) matches Ok(root) && root.dict() is Some && root.get(
            "info".spec_bytes(),
        ) is Some,
    ensures
        raw_dict_value(data, 1, "info".spec_bytes(), 1) is Some,
{
    lemma_parse_list_wf(data, 1, Seq::empty(), 1);
    assert(data[0] == 100u8);
    lemma_raw_dict_value_found(data, 1, Seq::empty(), "info".spec_bytes(), 1);
}

// ---------------------------------------------------------------------------
// Implementation
// ---------------------------------------------------------------------------




/// The texts of the UTF-8 byte strings among `items`.
fn collect_texts(items: &[BValue]) -> (r: Vec<String>)
    ensures
        texts(r@) == text_items(BValue::models(items@)),
{
    let ghost ms = BValue::models(items@);
    proof {
        lemma_models(items@);
    }
    let mut out: Vec<String> = Vec::new();
    let mut i: usize = 0;
    assert(ms.take(0) =~= Seq::<Bencoded>::empty());
    assert(texts(out@) =~= Seq::<Seq<char>>::empty());
    while i < items.len()
        invariant
            i <= items.len(),
            ms == BValue::models(items@),
            ms.len() == items@.len(),
            forall|j: int| 0 <= j < items@.len() ==> #[trigger] ms[j] == items@[j].model(),
            texts(out@) == text_items(ms.take(i as int)),
        decreases items.len() - i,
    {
        assert(ms.take(i + 1).drop_last() =~= ms.take(i as int));
        assert(ms.take(i + 1).last() == items@[i as int].model());
        match items[i].as_str() {
            Some(s) => {
                let ghost before = out@;
                out.push(String::from_str(s));
                assert(texts(out@) =~= texts(before).push(s@));
            },
            None => {},
        }
        i += 1;
    }
    assert(ms.take(items.len() as int) =~= ms);
    out
}

/// The tiers of an announce list.
fn collect_tiers(items: &[BValue]) -> (r: Vec<Vec<String>>)
    ensures
        r@.map_values(|t: Vec<String>| texts(t@)) == tier_items(BValue::models(items@)),
{
    let ghost ms = BValue::models(items@);
    proof {
        lemma_models(items@);
    }
    let mut out: Vec<Vec<String>> = Vec::new();
    let mut i: usize = 0;
    assert(ms.take(0) =~= Seq::<Bencoded>::empty());
    assert(out@.map_values(|t: Vec<String>| texts(t@)) =~= Seq::<Seq<Seq<char>>>::empty());
    while i < items.len()
        invariant
            i <= items.len(),
            ms == BValue::models(items@),
            ms.len() == items@.len(),
            forall|j: int| 0 <= j < items@.len() ==> #[trigger] ms[j] == items@[j].model(),
            out@.map_values(|t: Vec<String>| texts(t@)) == tier_items(ms.take(i as int)),
        decreases items.len() - i,
    {
        assert(ms.take(i + 1).drop_last() =~= ms.take(i as int));
        assert(ms.take(i + 1).last() == items@[i as int].model());
        match items[i].as_list() {
            Some(urls) => {
                let ghost before = out@;
                let tier = collect_texts(urls);
                out.push(tier);
                assert(out@.map_values(|t: Vec<String>| texts(t@)) =~= before.map_values(
                    |t: Vec<String>| texts(t@),
                ).push(texts(tier@)));
            },
            None => {},
        }
        i += 1;
    }
    assert(ms.take(items.len() as int) =~= ms);
    out
}

/// One entry of the `files` list.
fn parse_file(f: &BValue) -> (r: Result<TorrentFile, TorrentError>)
    ensures
        match file_spec(f.model()) {
            Ok(m) => r matches Ok(x) && file_model(x) == m,
            Err(e) => r matches Err(x) && x@ == e,
        },
{
    if f.as_dict().is_none() {
        return Err(
            TorrentError::InvalidStructure(String::from_str("file entry is not a dictionary")),
        );
    }
    let length = match int_field(f, "length") {
        Some(n) => n,
        None => {
            return Err(TorrentError::MissingField(String::from_str("file.length")));
        },
    };
    let parts = match list_field(f, "path") {
        Some(p) => p,
        None => {
            return Err(TorrentError::MissingField(String::from_str("file.path")));
        },
    };
    let path = collect_texts(parts);
    if path.len() == 0 {
        return Err(TorrentError::InvalidStructure(String::from_str("empty file path")));
    }
    let file = TorrentFile { path, length: i64_as_u64(length) };
    assert(file_model(file).0 =~= texts(path@));
    Ok(file)
}

/// The `files` list of a multi-file torrent.
fn parse_files(fs: &[BValue]) -> (r: Result<Vec<TorrentFile>, TorrentError>)
    ensures
        match files_spec(BValue::models(fs@)) {
            Ok(m) => r matches Ok(x) && x@.map_values(|f: TorrentFile| file_model(f)) == m,
            Err(e) => r matches Err(x) && x@ == e,
        },
{
    let ghost ms = BValue::models(fs@);
    proof {
        lemma_models(fs@);
    }
    let mut out: Vec<TorrentFile> = Vec::new();
    let mut i: usize = 0;
    assert(ms.take(0) =~= Seq::<Bencoded>::empty());
    assert(out@.map_values(|f: TorrentFile| file_model(f)) =~= Seq::<
        (Seq<Seq<char>>, u64),
    >::empty());
    while i < fs.len()
        invariant
            i <= fs.len(),
            ms == BValue::models(fs@),
            ms.len() == fs@.len(),
            forall|j: int| 0 <= j < fs@.len() ==> #[trigger] ms[j] == fs@[j].model(),
            files_spec(ms.take(i as int)) == Ok::<Seq<(Seq<Seq<char>>, u64)>, TorrentFailure>(
                out@.map_values(|f: TorrentFile| file_model(f)),
            ),
        decreases fs.len() - i,
    {
        assert(ms.take(i + 1).drop_last() =~= ms.take(i as int));
        assert(ms.take(i + 1).last() == fs@[i as int].model());
        let f = parse_file(&fs[i]);
        match f {
            Ok(file) => {
                let ghost before = out@;
                out.push(file);
                assert(out@.map_values(|f: TorrentFile| file_model(f)) =~= before.map_values(
                    |f: TorrentFile| file_model(f),
                ).push(file_model(file)));
            },
            Err(e) => {
                proof {
                    lemma_files_spec_err(ms, i as int + 1);
                }
                return Err(e);
            },
        }
        i += 1;
    }
    assert(ms.take(fs.len() as int) =~= ms);
    Ok(out)
}

/// An error in a prefix of the `files` list is the error of the whole list.
proof fn lemma_files_spec_err(fs: Seq<Bencoded>, k: int)
    requires
        0 <= k <= fs.len(),
        files_spec(fs.take(k)) is Err,
    ensures
        files_spec(fs) == files_spec(fs.take(k)),
    decreases fs.len(),
{
    if k < fs.len() {
        assert(fs.drop_last().take(k) =~= fs.take(k));
        lemma_files_spec_err(fs.drop_last(), k);
    } else {
        assert(fs.take(k) =~= fs);
    }
}

/// Parses a .torrent file from its raw bytes.
///
/// Extracts all metadata including the announce URL, file information,
/// piece hashes, and computes the SHA1 info_hash over the info
/// dictionary's bytes exactly as they stand in the file.
pub fn parse(data: &[u8]) -> (r: Result<TorrentMetainfo, TorrentError>)
    ensures
        match parse_spec(data@) {
            Ok(m) => r matches Ok(x) && x@ == m,
            Err(e) => r matches Err(x) && x@ == e,
        },
{
    let root = match decode(data) {
        Ok(v) => v,
        Err(e) => {
            return Err(TorrentError::Bencode(e.message()));
        },
    };
    if root.as_dict().is_none() {
        return Err(TorrentError::InvalidStructure(String::from_str("root is not a dictionary")));
    }
    let announce = match text_field(&root, "announce") {
        Some(a) => a,
        None => {
            return Err(TorrentError::MissingField(String::from_str("announce")));
        },
    };
    let announce_list = match list_field(&root, "announce-list") {
        Some(tiers) => Some(collect_tiers(tiers)),
        None => None,
    };
    let info = match root.dict_get("info") {
        Some(i) => i,
        None => {
            return Err(TorrentError::MissingField(String::from_str("info")));
        },
    };
    if info.as_dict().is_none() {
        return Err(TorrentError::InvalidStructure(String::from_str("info is not a dictionary")));
    }
    proof {
        lemma_info_raw_found(data@);
    }
    let info_hash = match dict_value_span(data, 1, "info", 1) {
        Some((a, b)) => sha1(slice_range(data, a, b)),
        None => {
            return Err(TorrentError::MissingField(String::from_str("info")));
        },
    };
    let name = match text_field(info, "name") {
        Some(n) => n,
        None => {
            return Err(TorrentError::MissingField(String::from_str("info.name")));
        },
    };
    let piece_length = match int_field(info, "piece length") {
        Some(n) => i64_as_u64(n),
        None => {
            return Err(TorrentError::MissingField(String::from_str("info.piece length")));
        },
    };
    let pieces = match info.dict_get("pieces") {
        Some(p) => match p.as_bytes() {
            Some(b) => b,
            None => {
                return Err(TorrentError::MissingField(String::from_str("info.pieces")));
            },
        },
        None => {
            return Err(TorrentError::MissingField(String::from_str("info.pieces")));
        },
    };
    if pieces.len() % 20 != 0 {
        let mut msg = String::from_str("pieces length ");
        push_decimal(&mut msg, pieces.len() as u64);
        msg.append(" is not a multiple of 20");
        return Err(TorrentError::InvalidStructure(msg));
    }
    let pieces = slice_to_vec(pieces);
    let length = match int_field(info, "length") {
        Some(n) => Some(i64_as_u64(n)),
        None => None,
    };
    let files = if length.is_none() {
        let fs = match list_field(info, "files") {
            Some(fs) => fs,
            None => {
                return Err(
                    TorrentError::MissingField(String::from_str("info.length or info.files")),
                );
            },
        };
        match parse_files(fs) {
            Ok(parsed) => Some(parsed),
            Err(e) => {
                return Err(e);
            },
        }
    } else {
        None
    };
    let comment = text_field(&root, "comment");
    let created_by = text_field(&root, "created by");
    let creation_date = int_field(&root, "creation date");
    let meta = TorrentMetainfo {
        announce,
        announce_list,
        name,
        piece_length,
        pieces,
        length,
        files,
        comment,
        created_by,
        creation_date,
        info_hash,
    };
    Ok(meta)
}

/// The metadata of a torrent is read from its own keys: the announce URL,
/// comment and creator from the root's `announce`, `comment` and
/// `created by` texts (absent ones give none), the creation date from
/// `creation date`; the name, piece length, piece hashes and single-file
/// length from the info dictionary's `name`, `piece length`, `pieces` and
/// `length`. The info hash is the SHA-1 of the info dictionary's raw bytes.
/// Piece hashes whose length is not a multiple of 20 are refused.
pub proof fn law_metainfo_fields(root: Bencoded, info_raw: Seq<u8>, text: Seq<char>, n: int)
    requires
        0 <= n <= i64::MAX,
    ensures
        metainfo_spec(root, info_raw) is Ok ==> ({
            let m = metainfo_spec(root, info_raw)->Ok_0;
            let info = root.get("info".spec_bytes()).unwrap();
            &&& root.get("announce".spec_bytes()) == Some(Bencoded::Str(encode_utf8(text)))
                ==> m.announce == text
            &&& root.get("comment".spec_bytes()) == Some(Bencoded::Str(encode_utf8(text)))
                ==> m.comment == Some(text)
            &&& root.get("comment".spec_bytes()) is None ==> m.comment is None
            &&& root.get("created by".spec_bytes()) == Some(Bencoded::Str(encode_utf8(text)))
                ==> m.created_by == Some(text)
            &&& root.get("created by".spec_bytes()) is None ==> m.created_by is None
            &&& root.get("creation date".spec_bytes()) == Some(Bencoded::Int(n)) ==> m.creation_date
                == Some(n as i64)
            &&& root.get("creation date".spec_bytes()) is None ==> m.creation_date is None
            &&& info.get("name".spec_bytes()) == Some(Bencoded::Str(encode_utf8(text))) ==> m.name
                == text
            &&& info.get("piece length".spec_bytes()) == Some(Bencoded::Int(n)) ==> m.piece_length
                == n
            &&& info.get("pieces".spec_bytes()) == Some(Bencoded::Str(m.pieces))
            &&& m.pieces.len() % 20 == 0
            &&& info.get("length".spec_bytes()) == Some(Bencoded::Int(n)) ==> m.length == Some(
                n as u64,
            ) && m.files is None
            &&& info.get("length".spec_bytes()) is None ==> m.length is None && m.files is Some
            &&& m.info_hash == sha1_digest(info_raw)
        }),
        ({
            let info = root.get("info".spec_bytes()).unwrap();
            let pieces = field_bytes(info, "pieces".spec_bytes());
            (root.dict() is Some && field_text(root, "announce".spec_bytes()) is Some && root.get(
                "info".spec_bytes(),
            ) is Some && info.dict() is Some && field_text(info, "name".spec_bytes()) is Some
                && field_int(info, "piece length".spec_bytes()) is Some && pieces is Some
                && pieces.unwrap().len() % 20 != 0) ==> (metainfo_spec(root, info_raw) is Err
                && metainfo_spec(root, info_raw)->Err_0 is InvalidStructure)
        }),
{
    encode_utf8_valid_utf8(text);
    encode_utf8_decode_utf8(text);
}

/// A file of a multi-file torrent is read from its own keys: its length
/// from `length`, its path from the texts listed under `path`; a file with
/// no path parts is refused.
pub proof fn law_file_entry(entry: Bencoded, parts: Seq<Bencoded>, n: int)
    requires
        0 <= n <= i64::MAX,
    ensures
        file_spec(entry) is Ok ==> ({
            let (path, length) = file_spec(entry)->Ok_0;
            &&& entry.get("length".spec_bytes()) == Some(Bencoded::Int(n)) ==> length == n
            &&& entry.get("path".spec_bytes()) == Some(Bencoded::List(parts)) ==> path == text_items(parts)
            &&& path.len() > 0
        }),
        (entry.dict() is Some && field_int(entry, "length".spec_bytes()) is Some && entry.get(
            "path".spec_bytes(),
        ) == Some(Bencoded::List(parts)) && text_items(parts).len() == 0) ==> file_spec(entry) is Err,
{
}

} // verus!
