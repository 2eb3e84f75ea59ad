use ratiomaster::bencode::{decode, encode, BValue};
use ratiomaster::torrent::{parse, TorrentError, TorrentFile, TorrentMetainfo};
use sha1::{Digest, Sha1};

fn dict(mut pairs: Vec<(Vec<u8>, BValue)>) -> BValue {
    pairs.sort_by(|a, b| a.0.cmp(&b.0));
    BValue::Dict(pairs)
}

fn s(b: &[u8]) -> BValue {
    BValue::String(b.to_vec())
}

fn make_single_file_torrent(announce: &str, name: &str, piece_length: i64, length: i64) -> Vec<u8> {
    let info = dict(vec![
        (b"length".to_vec(), BValue::Integer(length)),
        (b"name".to_vec(), s(name.as_bytes())),
        (b"piece length".to_vec(), BValue::Integer(piece_length)),
        (b"pieces".to_vec(), BValue::String(vec![0xaa; 20])),
    ]);
    let root = dict(vec![(b"announce".to_vec(), s(announce.as_bytes())), (b"info".to_vec(), info)]);
    encode(&root)
}

fn make_multi_file_torrent(
    announce: &str,
    name: &str,
    piece_length: i64,
    files: &[(Vec<String>, i64)],
) -> Vec<u8> {
    let file_entries: Vec<BValue> = files
        .iter()
        .map(|(path, length)| {
            dict(vec![
                (b"length".to_vec(), BValue::Integer(*length)),
                (b"path".to_vec(), BValue::List(path.iter().map(|p| s(p.as_bytes())).collect())),
            ])
        })
        .collect();
    let total: i64 = files.iter().map(|(_, l)| l).sum();
    let piece_count = (total as u64).div_ceil(piece_length as u64) as usize;
    let info = dict(vec![
        (b"files".to_vec(), BValue::List(file_entries)),
        (b"name".to_vec(), s(name.as_bytes())),
        (b"piece length".to_vec(), BValue::Integer(piece_length)),
        (b"pieces".to_vec(), BValue::String(vec![0xbb; piece_count * 20])),
    ]);
    let root = dict(vec![(b"announce".to_vec(), s(announce.as_bytes())), (b"info".to_vec(), info)]);
    encode(&root)
}

fn path(parts: &[&str]) -> Vec<String> {
    parts.iter().map(|p| p.to_string()).collect()
}

fn single_info(pieces: Vec<u8>) -> Vec<(Vec<u8>, BValue)> {
    vec![
        (b"length".to_vec(), BValue::Integer(100)),
        (b"name".to_vec(), s(b"test")),
        (b"piece length".to_vec(), BValue::Integer(65536)),
        (b"pieces".to_vec(), BValue::String(pieces)),
    ]
}

fn with_announce(info: Vec<(Vec<u8>, BValue)>) -> Vec<u8> {
    encode(&dict(vec![
        (b"announce".to_vec(), s(b"http://tracker.example.com/announce")),
        (b"info".to_vec(), dict(info)),
    ]))
}

#[test]
fn parse_single_file_torrent() {
    let data = make_single_file_torrent("http://tracker.example.com/announce", "test.txt", 262144, 1024);
    let meta = parse(&data).unwrap();
    assert_eq!(meta.announce, "http://tracker.example.com/announce");
    assert_eq!(meta.name, "test.txt");
    assert_eq!(meta.piece_length, 262144);
    assert_eq!(meta.length, Some(1024));
    assert!(meta.files.is_none());
    assert!(meta.is_single_file());
    assert!(!meta.is_multi_file());
    assert_eq!(meta.total_size(), 1024);
    assert_eq!(meta.piece_count(), 1);
    assert_eq!(meta.pieces.len(), 20);
}

#[test]
fn parse_multi_file_torrent() {
    let files = vec![(path(&["dir", "file1.txt"]), 1000), (path(&["dir", "file2.txt"]), 2000)];
    let data = make_multi_file_torrent("http://tracker.example.com/announce", "my_torrent", 262144, &files);
    let meta = parse(&data).unwrap();
    assert_eq!(meta.name, "my_torrent");
    assert!(meta.length.is_none());
    assert!(meta.is_multi_file());
    assert!(!meta.is_single_file());
    assert_eq!(meta.total_size(), 3000);
    assert_eq!(meta.checked_total_size(), Some(3000));
    let parsed_files = meta.files.as_ref().unwrap();
    assert_eq!(parsed_files.len(), 2);
    assert_eq!(parsed_files[0].path, vec!["dir", "file1.txt"]);
    assert_eq!(parsed_files[0].length, 1000);
    assert_eq!(parsed_files[1].path, vec!["dir", "file2.txt"]);
    assert_eq!(parsed_files[1].length, 2000);
}

#[test]
fn info_hash_is_correct() {
    let data = make_single_file_torrent("http://tracker.example.com/announce", "test.txt", 262144, 1024);
    let meta = parse(&data).unwrap();
    let root = decode(&data).unwrap();
    let info = root.dict_get("info").unwrap();
    let info_bytes = encode(info);
    let expected: [u8; 20] = Sha1::digest(&info_bytes).into();
    assert_eq!(meta.info_hash, expected);
}

#[test]
fn parse_with_optional_fields() {
    let info = dict(vec![
        (b"length".to_vec(), BValue::Integer(512)),
        (b"name".to_vec(), s(b"test.bin")),
        (b"piece length".to_vec(), BValue::Integer(65536)),
        (b"pieces".to_vec(), BValue::String(vec![0xcc; 20])),
    ]);
    let root = dict(vec![
        (b"announce".to_vec(), s(b"http://tracker.example.com/announce")),
        (b"comment".to_vec(), s(b"This is a test torrent")),
        (b"created by".to_vec(), s(b"ratiomaster-test")),
        (b"creation date".to_vec(), BValue::Integer(1700000000)),
        (b"info".to_vec(), info),
    ]);
    let data = encode(&root);
    let meta = parse(&data).unwrap();
    assert_eq!(meta.comment.as_deref(), Some("This is a test torrent"));
    assert_eq!(meta.created_by.as_deref(), Some("ratiomaster-test"));
    assert_eq!(meta.creation_date, Some(1700000000));
}

#[test]
fn parse_with_announce_list() {
    let info = dict(vec![
        (b"length".to_vec(), BValue::Integer(100)),
        (b"name".to_vec(), s(b"test")),
        (b"piece length".to_vec(), BValue::Integer(65536)),
        (b"pieces".to_vec(), BValue::String(vec![0xdd; 20])),
    ]);
    let announce_list = BValue::List(vec![
        BValue::List(vec![
            s(b"http://tracker1.example.com/announce"),
            s(b"http://tracker2.example.com/announce"),
        ]),
        BValue::List(vec![s(b"http://backup.example.com/announce")]),
    ]);
    let root = dict(vec![
        (b"announce".to_vec(), s(b"http://tracker1.example.com/announce")),
        (b"announce-list".to_vec(), announce_list),
        (b"info".to_vec(), info),
    ]);
    let data = encode(&root);
    let meta = parse(&data).unwrap();
    let tiers = meta.announce_list.unwrap();
    assert_eq!(tiers.len(), 2);
    assert_eq!(tiers[0].len(), 2);
    assert_eq!(tiers[1].len(), 1);
}

#[test]
fn parse_missing_announce_fails() {
    let data = encode(&dict(vec![(b"info".to_vec(), dict(single_info(vec![0xee; 20])))]));
    assert!(matches!(parse(&data), Err(TorrentError::MissingField(_))));
}

#[test]
fn parse_invalid_pieces_length_fails() {
    let data = with_announce(single_info(vec![0xff; 15]));
    assert!(matches!(parse(&data), Err(TorrentError::InvalidStructure(_))));
}

#[test]
fn parse_torrent_no_optional_fields() {
    let data = make_single_file_torrent("http://tracker.example.com/announce", "bare.txt", 262144, 5000);
    let meta = parse(&data).unwrap();
    assert!(meta.comment.is_none());
    assert!(meta.created_by.is_none());
    assert!(meta.creation_date.is_none());
    assert!(meta.announce_list.is_none());
}

#[test]
fn parse_torrent_with_every_optional_field() {
    let info = dict(vec![
        (b"length".to_vec(), BValue::Integer(10000)),
        (b"name".to_vec(), s(b"full.txt")),
        (b"piece length".to_vec(), BValue::Integer(262144)),
        (b"pieces".to_vec(), BValue::String(vec![0xaa; 20])),
    ]);
    let announce_list = BValue::List(vec![
        BValue::List(vec![s(b"http://tracker1.example.com/announce")]),
        BValue::List(vec![s(b"http://tracker2.example.com/announce")]),
    ]);
    let root = dict(vec![
        (b"announce".to_vec(), s(b"http://tracker1.example.com/announce")),
        (b"announce-list".to_vec(), announce_list),
        (b"comment".to_vec(), s(b"A full torrent with all fields")),
        (b"created by".to_vec(), s(b"ratiomaster-test v1.0")),
        (b"creation date".to_vec(), BValue::Integer(1700000000)),
        (b"info".to_vec(), info),
    ]);
    let data = encode(&root);
    let meta = parse(&data).unwrap();
    assert_eq!(meta.announce, "http://tracker1.example.com/announce");
    assert!(meta.announce_list.is_some());
    assert_eq!(meta.announce_list.as_ref().unwrap().len(), 2);
    assert_eq!(meta.comment.as_deref(), Some("A full torrent with all fields"));
    assert_eq!(meta.created_by.as_deref(), Some("ratiomaster-test v1.0"));
    assert_eq!(meta.creation_date, Some(1700000000));
    assert_eq!(meta.name, "full.txt");
    assert_eq!(meta.length, Some(10000));
}

#[test]
fn parse_very_large_file_size() {
    let size: i64 = 5_497_558_138_880;
    let data = make_single_file_torrent("http://tracker.example.com/announce", "huge.iso", 4194304, size);
    let meta = parse(&data).unwrap();
    assert_eq!(meta.total_size(), size as u64);
    assert_eq!(meta.length, Some(size as u64));
}

#[test]
fn parse_many_files_torrent() {
    let files: Vec<(Vec<String>, i64)> = (0..120)
        .map(|i| (vec!["data".to_string(), format!("file_{:04}.dat", i)], 1024i64 * (i + 1)))
        .collect();
    let data = make_multi_file_torrent("http://tracker.example.com/announce", "many_files", 262144, &files);
    let meta = parse(&data).unwrap();
    assert!(meta.is_multi_file());
    let parsed_files = meta.files.as_ref().unwrap();
    assert_eq!(parsed_files.len(), 120);
    assert_eq!(parsed_files[0].path, vec!["data", "file_0000.dat"]);
    assert_eq!(parsed_files[0].length, 1024);
    assert_eq!(parsed_files[119].path, vec!["data", "file_0119.dat"]);
    assert_eq!(parsed_files[119].length, 1024 * 120);
}

#[test]
fn parse_unicode_filenames() {
    let files = vec![
        (path(&["music", "\u{65e5}\u{672c}\u{8a9e}\u{306e}\u{66f2}.mp3"]), 5_000_000),
        (path(&["music", "donn\u{e9}es.txt"]), 1000),
        (path(&["music", "\u{1f3b5}\u{1f3b6}.ogg"]), 3_000_000),
    ];
    let data = make_multi_file_torrent("http://tracker.example.com/announce", "unicode_torrent", 262144, &files);
    let meta = parse(&data).unwrap();
    let parsed_files = meta.files.as_ref().unwrap();
    assert_eq!(parsed_files.len(), 3);
    assert_eq!(parsed_files[0].path[1], "\u{65e5}\u{672c}\u{8a9e}\u{306e}\u{66f2}.mp3");
    assert_eq!(parsed_files[1].path[1], "donn\u{e9}es.txt");
    assert_eq!(parsed_files[2].path[1], "\u{1f3b5}\u{1f3b6}.ogg");
}

#[test]
fn parse_missing_info_dict() {
    let data = encode(&dict(vec![(b"announce".to_vec(), s(b"http://tracker.example.com/announce"))]));
    assert!(matches!(parse(&data), Err(TorrentError::MissingField(_))));
}

#[test]
fn parse_missing_name() {
    let info = vec![
        (b"length".to_vec(), BValue::Integer(100)),
        (b"piece length".to_vec(), BValue::Integer(65536)),
        (b"pieces".to_vec(), BValue::String(vec![0xaa; 20])),
    ];
    assert!(matches!(parse(&with_announce(info)), Err(TorrentError::MissingField(_))));
}

#[test]
fn parse_missing_piece_length() {
    let info = vec![
        (b"length".to_vec(), BValue::Integer(100)),
        (b"name".to_vec(), s(b"test")),
        (b"pieces".to_vec(), BValue::String(vec![0xaa; 20])),
    ];
    assert!(matches!(parse(&with_announce(info)), Err(TorrentError::MissingField(_))));
}

#[test]
fn parse_missing_pieces() {
    let info = vec![
        (b"length".to_vec(), BValue::Integer(100)),
        (b"name".to_vec(), s(b"test")),
        (b"piece length".to_vec(), BValue::Integer(65536)),
    ];
    assert!(matches!(parse(&with_announce(info)), Err(TorrentError::MissingField(_))));
}

#[test]
fn parse_wrong_pieces_multiple() {
    let data = with_announce(single_info(vec![0xbb; 25]));
    assert!(matches!(parse(&data), Err(TorrentError::InvalidStructure(_))));
}

#[test]
fn parse_root_not_dict() {
    let data = encode(&BValue::List(vec![BValue::Integer(1)]));
    assert!(matches!(parse(&data), Err(TorrentError::InvalidStructure(_))));
}

#[test]
fn parse_invalid_bencode() {
    assert!(matches!(parse(b"not bencode at all"), Err(TorrentError::Bencode(_))));
}

#[test]
fn parse_multiple_pieces() {
    let info = dict(vec![
        (b"length".to_vec(), BValue::Integer(5000)),
        (b"name".to_vec(), s(b"multi_piece.bin")),
        (b"piece length".to_vec(), BValue::Integer(1024)),
        (b"pieces".to_vec(), BValue::String(vec![0xcc; 100])),
    ]);
    let data = encode(&dict(vec![
        (b"announce".to_vec(), s(b"http://tracker.example.com/announce")),
        (b"info".to_vec(), info),
    ]));
    let meta = parse(&data).unwrap();
    assert_eq!(meta.piece_count(), 5);
    assert_eq!(meta.pieces.len(), 100);
}

#[test]
fn parse_info_hash_deterministic() {
    let data =
        make_single_file_torrent("http://tracker.example.com/announce", "deterministic.txt", 262144, 999);
    let meta1 = parse(&data).unwrap();
    let meta2 = parse(&data).unwrap();
    assert_eq!(meta1.info_hash, meta2.info_hash);
    assert_ne!(meta1.info_hash, [0u8; 20]);
}

#[test]
fn parse_no_length_no_files_fails() {
    let info = vec![
        (b"name".to_vec(), s(b"test")),
        (b"piece length".to_vec(), BValue::Integer(65536)),
        (b"pieces".to_vec(), BValue::String(vec![0xaa; 20])),
    ];
    assert!(parse(&with_announce(info)).is_err());
}

#[test]
fn parse_error_messages() {
    let data = with_announce(single_info(vec![0xff; 15]));
    let err = parse(&data).unwrap_err();
    assert_eq!(err, TorrentError::InvalidStructure("pieces length 15 is not a multiple of 20".into()));
    assert_eq!(err.message(), "invalid torrent structure: pieces length 15 is not a multiple of 20");
    let info = vec![
        (b"name".to_vec(), s(b"test")),
        (b"piece length".to_vec(), BValue::Integer(65536)),
        (b"pieces".to_vec(), BValue::String(vec![0xaa; 20])),
    ];
    assert_eq!(
        parse(&with_announce(info)).unwrap_err(),
        TorrentError::MissingField("info.length or info.files".into())
    );
    assert_eq!(
        parse(b"x").unwrap_err(),
        TorrentError::Bencode("invalid byte 0x78 at position 0".into())
    );
}

#[test]
fn parse_negative_length_wraps() {
    let info = vec![
        (b"length".to_vec(), BValue::Integer(-1)),
        (b"name".to_vec(), s(b"test")),
        (b"piece length".to_vec(), BValue::Integer(65536)),
        (b"pieces".to_vec(), BValue::String(vec![0xaa; 20])),
    ];
    let meta = parse(&with_announce(info)).unwrap();
    assert_eq!(meta.length, Some(u64::MAX));
}

#[test]
fn parse_file_entry_errors() {
    let file = dict(vec![(b"length".to_vec(), BValue::Integer(5)), (b"path".to_vec(), BValue::List(vec![]))]);
    let info = vec![
        (b"files".to_vec(), BValue::List(vec![file])),
        (b"name".to_vec(), s(b"test")),
        (b"piece length".to_vec(), BValue::Integer(65536)),
        (b"pieces".to_vec(), BValue::String(vec![0xaa; 20])),
    ];
    assert_eq!(
        parse(&with_announce(info)).unwrap_err(),
        TorrentError::InvalidStructure("empty file path".into())
    );
}

#[test]
fn checked_total_size_detects_overflow() {
    let file = |name: &str, length: u64| TorrentFile { path: vec![name.to_string()], length };
    let mut meta = TorrentMetainfo {
        announce: "http://t/announce".into(),
        announce_list: None,
        name: "big".into(),
        piece_length: 262144,
        pieces: vec![0; 20],
        length: None,
        files: Some(vec![file("a", u64::MAX / 2 + 1), file("b", u64::MAX / 2)]),
        comment: None,
        created_by: None,
        creation_date: None,
        info_hash: [0; 20],
    };
    assert_eq!(meta.checked_total_size(), Some(u64::MAX));
    meta.files = Some(vec![file("a", u64::MAX / 2 + 1), file("b", u64::MAX / 2 + 1)]);
    assert_eq!(meta.checked_total_size(), None);
    meta.files = None;
    assert_eq!(meta.checked_total_size(), Some(0));
}

#[test]
fn info_hash_is_taken_over_the_raw_info_bytes() {
    let mut info = b"d6:lengthi+5e4:name04:file12:piece lengthi16384e6:pieces20:".to_vec();
    info.extend_from_slice(&[0xaa; 20]);
    info.push(b'e');
    let mut data = b"d8:announce14:http://t/annce4:info".to_vec();
    data.extend_from_slice(&info);
    data.push(b'e');
    let meta = parse(&data).unwrap();
    assert_eq!(meta.length, Some(5));
    assert_eq!(meta.name, "file");
    let expected: [u8; 20] = Sha1::digest(&info).into();
    assert_eq!(meta.info_hash, expected);
    let reencoded = encode(&decode(&info).unwrap());
    assert_ne!(reencoded, info);
}
