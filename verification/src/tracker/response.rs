//! HTTP tracker response parser.
//!
//! Parses the BEncoded body from a tracker announce response to extract:
//! interval, peers (compact or dict format), seeders/leechers, and failure reasons.
use vstd::prelude::*;
use vstd::string::StringSliceAdditionalSpecFns;
use vstd::utf8::{encode_utf8, encode_utf8_decode_utf8, encode_utf8_valid_utf8};

use crate::bencode::decoder::decode_spec;
use crate::bencode::fields::{
    bytes_field, field_bytes, field_int, field_text, int_field, text_field,
};
use crate::bencode::value::lemma_models;
use crate::bencode::{decode, BValue, Bencoded};
use crate::strings::{
    digit_chars_value, find_char, index_of, is_ascii_digit, lemma_index_of, str_chars,
};
use crate::text::{
    ascii_chars, decimal, digits_value, i64_as_u64, is_digit, lemma_decimal, push_decimal, slice_to_vec,
    wrap_u64,
};

verus! {

broadcast use vstd::std_specs::vec::group_vec_axioms;

/// Errors that can occur when parsing tracker responses.
#[derive(Debug, PartialEq, Eq)]
pub enum TrackerResponseError {
    /// The tracker returned a failure reason.
    TrackerFailure(String),
    /// The response body could not be parsed as BEncoded data.
    InvalidBencode(String),
    /// A required field was missing from the response.
    MissingField(String),
    /// A field had an unexpected type or format.
    InvalidField(String),
}

/// The mathematical model of a [`TrackerResponseError`].
pub enum ResponseFailure {
    TrackerFailure(Seq<char>),
    InvalidBencode(Seq<char>),
    MissingField(Seq<char>),
    InvalidField(Seq<char>),
}

impl View for TrackerResponseError {
    type V = ResponseFailure;

    open spec fn view(&self) -> ResponseFailure {
        match self {
            TrackerResponseError::TrackerFailure(m) => ResponseFailure::TrackerFailure(m@),
            TrackerResponseError::InvalidBencode(m) => ResponseFailure::InvalidBencode(m@),
            TrackerResponseError::MissingField(m) => ResponseFailure::MissingField(m@),
            TrackerResponseError::InvalidField(m) => ResponseFailure::InvalidField(m@),
        }
    }
}

impl ResponseFailure {
    /// The human-readable description of the failure.
    pub open spec fn message(self) -> Seq<char> {
        match self {
            ResponseFailure::TrackerFailure(m) => "tracker failure: "@ + m,
            ResponseFailure::InvalidBencode(m) => "invalid bencode in response: "@ + m,
            ResponseFailure::MissingField(m) => "missing field: "@ + m,
            ResponseFailure::InvalidField(m) => "invalid field: "@ + m,
        }
    }
}

impl TrackerResponseError {
    /// The human-readable description of the error.
    pub fn message(&self) -> (r: String)
        ensures
            r@ == self@.message(),
    {
        match self {
            TrackerResponseError::TrackerFailure(m) => String::from_str("tracker failure: ").concat(
                m.as_str(),
            ),
            TrackerResponseError::InvalidBencode(m) => String::from_str(
                "invalid bencode in response: ",
            ).concat(m.as_str()),
            TrackerResponseError::MissingField(m) => String::from_str("missing field: ").concat(
                m.as_str(),
            ),
            TrackerResponseError::InvalidField(m) => String::from_str("invalid field: ").concat(
                m.as_str(),
            ),
        }
    }
}

/// A peer returned by the tracker.
#[derive(Debug, Clone, PartialEq, Eq)]
pub struct Peer {
    /// The IPv4 address, as its four octets.
    pub ip: [u8; 4],
    pub port: u16,
    pub peer_id: Option<Vec<u8>>,
}

/// The mathematical model of a [`Peer`]: address octets, port, and peer id.
pub open spec fn peer_view(p: Peer) -> (Seq<u8>, u16, Option<Seq<u8>>) {
    (
        p.ip@,
        p.port,
        match p.peer_id {
            Some(id) => Some(id@),
            None => None,
        },
    )
}

/// Parsed tracker announce response.
#[derive(Debug, Clone)]
pub struct TrackerResponse {
    /// Seconds between regular announces.
    pub interval: u64,
    /// Minimum interval (optional).
    pub min_interval: Option<u64>,
    /// List of peers.
    pub peers: Vec<Peer>,
    /// Number of seeders (complete).
    pub complete: Option<u64>,
    /// Number of leechers (incomplete).
    pub incomplete: Option<u64>,
    /// Number of times the torrent has been downloaded.
    pub downloaded: Option<u64>,
    /// Tracker ID (some trackers send this).
    pub tracker_id: Option<String>,
    /// Warning message from the tracker.
    pub warning_message: Option<String>,
}

/// The mathematical model of a [`TrackerResponse`].
pub struct ResponseModel {
    pub interval: u64,
    pub min_interval: Option<u64>,
    pub peers: Seq<(Seq<u8>, u16, Option<Seq<u8>>)>,
    pub complete: Option<u64>,
    pub incomplete: Option<u64>,
    pub downloaded: Option<u64>,
    pub tracker_id: Option<Seq<char>>,
    pub warning_message: Option<Seq<char>>,
}

impl View for TrackerResponse {
    type V = ResponseModel;

    open spec fn view(&self) -> ResponseModel {
        ResponseModel {
            interval: self.interval,
            min_interval: self.min_interval,
            peers: self.peers@.map_values(|p: Peer| peer_view(p)),
            complete: self.complete,
            incomplete: self.incomplete,
            downloaded: self.downloaded,
            tracker_id: match self.tracker_id {
                Some(t) => Some(t@),
                None => None,
            },
            warning_message: match self.warning_message {
                Some(t) => Some(t@),
                None => None,
            },
        }
    }
}

// ---------------------------------------------------------------------------
// Specification
// ---------------------------------------------------------------------------

/// One decimal octet of a dotted IPv4 address: one to three digits, no
/// leading zero, at most 255.
pub open spec fn octet(s: Seq<char>) -> Option<u8> {
    if 1 <= s.len() <= 3 && (forall|i: int| 0 <= i < s.len() ==> is_ascii_digit(#[trigger] s[i]))
        && !(s.len() > 1 && s[0] == '0') && digit_chars_value(s) <= 255 {
        Some(digit_chars_value(s) as u8)
    } else {
        None
    }
}

/// The octets of a dotted-decimal IPv4 address: exactly four octets
/// separated by dots, as `Ipv4Addr::from_str` accepts them.
pub open spec fn ipv4_octets(s: Seq<char>) -> Option<Seq<u8>> {
    match index_of(s, '.', 0) {
        None => None,
        Some(d1) => match index_of(s, '.', d1 + 1) {
            None => None,
            Some(d2) => match index_of(s, '.', d2 + 1) {
                None => None,
                Some(d3) => if index_of(s, '.', d3 + 1) is Some {
                    None
                } else {
                    match (
                        octet(s.subrange(0, d1)),
                        octet(s.subrange(d1 + 1, d2)),
                        octet(s.subrange(d2 + 1, d3)),
                        octet(s.subrange(d3 + 1, s.len() as int)),
                    ) {
                        (Some(a), Some(b), Some(c), Some(d)) => Some(seq![a, b, c, d]),
                        _ => None,
                    }
                },
            },
        },
    }
}

/// A peer in compact form: four address bytes, then the port in big-endian.
pub open spec fn compact_peer(data: Seq<u8>, k: int) -> (Seq<u8>, u16, Option<Seq<u8>>) {
    (data.subrange(6 * k, 6 * k + 4), (data[6 * k + 4] * 256 + data[6 * k + 5]) as u16, None)
}

/// The peers of a compact peer string.
pub open spec fn compact_peers_spec(data: Seq<u8>) -> Result<
    Seq<(Seq<u8>, u16, Option<Seq<u8>>)>,
    ResponseFailure,
> {
    if data.len() % 6 != 0 {
        Err(
            ResponseFailure::InvalidField(
                "compact peers length "@ + ascii_chars(decimal(data.len())) + " is not a multiple of 6"@,
            ),
        )
    } else {
        Ok(Seq::new((data.len() / 6) as nat, |k: int| compact_peer(data, k)))
    }
}

/// One peer of the dictionary form.
pub open spec fn dict_peer_spec(v: Bencoded) -> Result<(Seq<u8>, u16, Option<Seq<u8>>), ResponseFailure> {
    if v.dict() is None {
        Err(ResponseFailure::InvalidField("peer entry is not a dict"@))
    } else {
        match field_text(v, "ip".spec_bytes()) {
            None => Err(ResponseFailure::MissingField("peer.ip"@)),
            Some(ip) => match ipv4_octets(ip) {
                None => Err(ResponseFailure::InvalidField("invalid peer IP: "@ + ip)),
                Some(octets) => match field_int(v, "port".spec_bytes()) {
                    None => Err(ResponseFailure::MissingField("peer.port"@)),
                    Some(port) => Ok(
                        (octets, (wrap_u64(port) % 0x10000) as u16, field_bytes(v, "peer id".spec_bytes())),
                    ),
                },
            },
        }
    }
}

/// The peers of the dictionary form; the first bad entry decides the error.
pub open spec fn dict_peers_spec(items: Seq<Bencoded>) -> Result<
    Seq<(Seq<u8>, u16, Option<Seq<u8>>)>,
    ResponseFailure,
>
    decreases items.len(),
{
    if items.len() == 0 {
        Ok(Seq::empty())
    } else {
        match dict_peers_spec(items.drop_last()) {
            Err(e) => Err(e),
            Ok(acc) => match dict_peer_spec(items.last()) {
                Err(e) => Err(e),
                Ok(p) => Ok(acc.push(p)),
            },
        }
    }
}

/// The peers of a response dictionary: none without `peers`, else the
/// compact or dictionary form.
pub open spec fn peers_spec(root: Bencoded) -> Result<
    Seq<(Seq<u8>, u16, Option<Seq<u8>>)>,
    ResponseFailure,
> {
    match root.get("peers".spec_bytes()) {
        None => Ok(Seq::empty()),
        Some(Bencoded::Str(data)) => compact_peers_spec(data),
        Some(Bencoded::List(items)) => dict_peers_spec(items),
        Some(_) => Err(
            ResponseFailure::InvalidField("peers must be a string (compact) or list (dict)"@),
        ),
    }
}

/// An optional integer field, as `u64` (negative values wrap).
pub open spec fn opt_u64(v: Bencoded, key: Seq<u8>) -> Option<u64> {
    match field_int(v, key) {
        Some(n) => Some(wrap_u64(n)),
        None => None,
    }
}

/// What a decoded announce response says.
pub open spec fn response_spec(root: Bencoded) -> Result<ResponseModel, ResponseFailure> {
    if root.dict() is None {
        Err(ResponseFailure::InvalidBencode("response is not a dict"@))
    } else if root.get("failure reason".spec_bytes()) is Some {
        Err(
            ResponseFailure::TrackerFailure(
                match root.get("failure reason".spec_bytes()).unwrap().text() {
                    Some(t) => t,
                    None => "unknown failure"@,
                },
            ),
        )
    } else {
        match field_int(root, "interval".spec_bytes()) {
            None => Err(ResponseFailure::MissingField("interval"@)),
            Some(interval) => match peers_spec(root) {
                Err(e) => Err(e),
                Ok(peers) => Ok(
                    ResponseModel {
                        interval: wrap_u64(interval),
                        min_interval: opt_u64(root, "min interval".spec_bytes()),
                        peers,
                        complete: opt_u64(root, "complete".spec_bytes()),
                        incomplete: opt_u64(root, "incomplete".spec_bytes()),
                        downloaded: opt_u64(root, "downloaded".spec_bytes()),
                        tracker_id: field_text(root, "tracker id".spec_bytes()),
                        warning_message: field_text(root, "warning message".spec_bytes()),
                    },
                ),
            },
        }
    }
}

/// What parsing the body of an announce response yields.
pub open spec fn parse_spec(body: Seq<u8>) -> Result<ResponseModel, ResponseFailure> {
    match decode_spec(body) {
        Err(e) => Err(ResponseFailure::InvalidBencode(e.message())),
        Ok(root) => response_spec(root),
    }
}

// ---------------------------------------------------------------------------
// Implementation
// ---------------------------------------------------------------------------

/// Parses one octet of a dotted address from `s[from..to]`.
fn parse_octet(s: &[char], from: usize, to: usize) -> (r: Option<u8>)
    requires
        from <= to <= s@.len(),
    ensures
        r == octet(s@.subrange(from as int, to as int)),
{
    let ghost t = s@.subrange(from as int, to as int);
    if to - from < 1 || to - from > 3 {
        return None;
    }
    if to - from > 1 && s[from] == '0' {
        return None;
    }
    let mut v: u32 = 0;
    let mut i = from;
    while i < to
        invariant
            from <= i <= to <= s@.len(),
            to - from <= 3,
            t == s@.subrange(from as int, to as int),
            forall|j: int| from <= j < i ==> is_ascii_digit(#[trigger] s@[j]),
            v == digit_chars_value(s@.subrange(from as int, i as int)),
            i - from == 0 ==> v == 0,
            i - from <= 1 ==> v <= 9,
            i - from <= 2 ==> v <= 99,
            v <= 999,
        decreases to - i,
    {
        let c = s[i];
        if !('0' <= c && c <= '9') {
            assert(!is_ascii_digit(t[i - from]));
            return None;
        }
        assert(s@.subrange(from as int, i + 1).drop_last() =~= s@.subrange(from as int, i as int));
        v = v * 10 + (c as u32 - 48);
        i += 1;
    }
    assert(t =~= s@.subrange(from as int, i as int));
    assert(forall|j: int| 0 <= j < t.len() ==> #[trigger] t[j] == s@[from + j]);
    if v > 255 {
        None
    } else {
        Some(v as u8)
    }
}

/// Parses a dotted-decimal IPv4 address into its four octets, as
/// `Ipv4Addr::from_str` does.
pub fn parse_ipv4(s: &str) -> (r: Option<[u8; 4]>)
    ensures
        match ipv4_octets(s@) {
            Some(o) => r matches Some(a) && a@ == o,
            None => r is None,
        },
{
    let c = str_chars(s);
    let cs = c.as_slice();
    proof {
        lemma_index_of(cs@, '.', 0);
    }
    let d1 = match find_char(cs, '.', 0) {
        Some(d) => d,
        None => {
            return None;
        },
    };
    proof {
        lemma_index_of(cs@, '.', d1 + 1);
    }
    let d2 = match find_char(cs, '.', d1 + 1) {
        Some(d) => d,
        None => {
            return None;
        },
    };
    proof {
        lemma_index_of(cs@, '.', d2 + 1);
    }
    let d3 = match find_char(cs, '.', d2 + 1) {
        Some(d) => d,
        None => {
            return None;
        },
    };
    if find_char(cs, '.', d3 + 1).is_some() {
        return None;
    }
    let a = parse_octet(cs, 0, d1);
    let b = parse_octet(cs, d1 + 1, d2);
    let cc = parse_octet(cs, d2 + 1, d3);
    let d = parse_octet(cs, d3 + 1, cs.len());
    match (a, b, cc, d) {
        (Some(a), Some(b), Some(cc), Some(d)) => {
            let arr = [a, b, cc, d];
            assert(arr@ =~= seq![a, b, cc, d]);
            Some(arr)
        },
        _ => None,
    }
}

/// Parses compact peer format: each peer is 6 bytes (4 IP + 2 port).
fn parse_compact_peers(data: &[u8]) -> (r: Result<Vec<Peer>, TrackerResponseError>)
    ensures
        match compact_peers_spec(data@) {
            Ok(m) => r matches Ok(x) && x@.map_values(|p: Peer| peer_view(p)) == m,
            Err(e) => r matches Err(x) && x@ == e,
        },
{
    if data.len() % 6 != 0 {
        let mut msg = String::from_str("compact peers length ");
        push_decimal(&mut msg, data.len() as u64);
        msg.append(" is not a multiple of 6");
        return Err(TrackerResponseError::InvalidField(msg));
    }
    let n = data.len() / 6;
    let mut peers: Vec<Peer> = Vec::new();
    let mut k: usize = 0;
    while k < n
        invariant
            k <= n == data@.len() / 6,
            data@.len() % 6 == 0,
            peers@.len() == k,
            forall|j: int| 0 <= j < k ==> #[trigger] peer_view(peers@[j]) == compact_peer(data@, j),
        decreases n - k,
    {
        assert(6 * k + 6 <= data@.len()) by (nonlinear_arith)
            requires
                k < n,
                n == data@.len() / 6,
        ;
        assert(data@.len() == data.len());
        let i = 6 * k;
        let ip = [data[i], data[i + 1], data[i + 2], data[i + 3]];
        assert(ip@ =~= data@.subrange(6 * k as int, 6 * k + 4));
        let port = (data[i + 4] as u16) * 256 + data[i + 5] as u16;
        peers.push(Peer { ip, port, peer_id: None });
        k += 1;
    }
    assert(peers@.map_values(|p: Peer| peer_view(p)) =~= Seq::new(
        (data@.len() / 6) as nat,
        |k: int| compact_peer(data@, k),
    ));
    Ok(peers)
}

/// One peer of the dictionary form.
fn parse_dict_peer(item: &BValue) -> (r: Result<Peer, TrackerResponseError>)
    ensures
        match dict_peer_spec(item.model()) {
            Ok(m) => r matches Ok(x) && peer_view(x) == m,
            Err(e) => r matches Err(x) && x@ == e,
        },
{
    if item.as_dict().is_none() {
        return Err(TrackerResponseError::InvalidField(String::from_str("peer entry is not a dict")));
    }
    let ip_str = match item.dict_get("ip") {
        Some(v) => match v.as_str() {
            Some(s) => s,
            None => {
                return Err(TrackerResponseError::MissingField(String::from_str("peer.ip")));
            },
        },
        None => {
            return Err(TrackerResponseError::MissingField(String::from_str("peer.ip")));
        },
    };
    let ip = match parse_ipv4(ip_str) {
        Some(ip) => ip,
        None => {
            let msg = String::from_str("invalid peer IP: ").concat(ip_str);
            return Err(TrackerResponseError::InvalidField(msg));
        },
    };
    let port = match int_field(item, "port") {
        Some(p) => (i64_as_u64(p) % 0x10000) as u16,
        None => {
            return Err(TrackerResponseError::MissingField(String::from_str("peer.port")));
        },
    };
    let peer_id = match bytes_field(item, "peer id") {
        Some(b) => Some(slice_to_vec(b)),
        None => None,
    };
    Ok(Peer { ip, port, peer_id })
}

/// Parses dictionary-format peers: each peer is a dict with "ip", "port",
/// optionally "peer id".
fn parse_dict_peers(list: &[BValue]) -> (r: Result<Vec<Peer>, TrackerResponseError>)
    ensures
        match dict_peers_spec(BValue::models(list@)) {
            Ok(m) => r matches Ok(x) && x@.map_values(|p: Peer| peer_view(p)) == m,
            Err(e) => r matches Err(x) && x@ == e,
        },
{
    let ghost ms = BValue::models(list@);
    proof {
        lemma_models(list@);
    }
    let mut peers: Vec<Peer> = Vec::new();
    let mut i: usize = 0;
    assert(ms.take(0) =~= Seq::<Bencoded>::empty());
    assert(peers@.map_values(|p: Peer| peer_view(p)) =~= Seq::<(Seq<u8>, u16, Option<Seq<u8>>)>::empty());
    while i < list.len()
        invariant
            i <= list.len(),
            ms == BValue::models(list@),
            ms.len() == list@.len(),
            forall|j: int| 0 <= j < list@.len() ==> #[trigger] ms[j] == list@[j].model(),
            dict_peers_spec(ms.take(i as int)) == Ok::<Seq<(Seq<u8>, u16, Option<Seq<u8>>)>, ResponseFailure>(
                peers@.map_values(|p: Peer| peer_view(p)),
            ),
        decreases list.len() - i,
    {
        assert(ms.take(i + 1).drop_last() =~= ms.take(i as int));
        assert(ms.take(i + 1).last() == list@[i as int].model());
        match parse_dict_peer(&list[i]) {
            Ok(p) => {
                let ghost before = peers@;
                peers.push(p);
                assert(peers@.map_values(|p: Peer| peer_view(p)) =~= before.map_values(
                    |p: Peer| peer_view(p),
                ).push(peer_view(p)));
            },
            Err(e) => {
                proof {
                    lemma_dict_peers_err(ms, i as int + 1);
                }
                return Err(e);
            },
        }
        i += 1;
    }
    assert(ms.take(list.len() as int) =~= ms);
    Ok(peers)
}

/// An error in a prefix of the peer list is the error of the whole list.
proof fn lemma_dict_peers_err(items: Seq<Bencoded>, k: int)
    requires
        0 <= k <= items.len(),
        dict_peers_spec(items.take(k)) is Err,
    ensures
        dict_peers_spec(items) == dict_peers_spec(items.take(k)),
    decreases items.len(),
{
    if k < items.len() {
        assert(items.drop_last().take(k) =~= items.take(k));
        lemma_dict_peers_err(items.drop_last(), k);
    } else {
        assert(items.take(k) =~= items);
    }
}

/// Parses peers from either compact (6-byte per peer) or dictionary format.
fn parse_peers(root: &BValue) -> (r: Result<Vec<Peer>, TrackerResponseError>)
    ensures
        match peers_spec(root.model()) {
            Ok(m) => r matches Ok(x) && x@.map_values(|p: Peer| peer_view(p)) == m,
            Err(e) => r matches Err(x) && x@ == e,
        },
{
    match root.dict_get("peers") {
        None => {
            let v: Vec<Peer> = Vec::new();
            assert(v@.map_values(|p: Peer| peer_view(p)) =~= Seq::<(Seq<u8>, u16, Option<Seq<u8>>)>::empty());
            Ok(v)
        },
        Some(BValue::String(data)) => parse_compact_peers(data.as_slice()),
        Some(BValue::List(list)) => parse_dict_peers(list.as_slice()),
        Some(_) => Err(
            TrackerResponseError::InvalidField(
                String::from_str("peers must be a string (compact) or list (dict)"),
            ),
        ),
    }
}

fn opt_u64_field(v: &BValue, key: &str) -> (r: Option<u64>)
    ensures
        r == opt_u64(v.model(), key.spec_bytes()),
{
    match int_field(v, key) {
        Some(n) => Some(i64_as_u64(n)),
        None => None,
    }
}

/// Parses a BEncoded tracker response body.
pub fn parse(body: &[u8]) -> (r: Result<TrackerResponse, TrackerResponseError>)
    ensures
        match parse_spec(body@) {
            Ok(m) => r matches Ok(x) && x@ == m,
            Err(e) => r matches Err(x) && x@ == e,
        },
{
    let value = match decode(body) {
        Ok(v) => v,
        Err(e) => {
            return Err(TrackerResponseError::InvalidBencode(e.message()));
        },
    };
    if value.as_dict().is_none() {
        return Err(TrackerResponseError::InvalidBencode(String::from_str("response is not a dict")));
    }
    if let Some(failure) = value.dict_get("failure reason") {
        let reason = match failure.as_str() {
            Some(s) => String::from_str(s),
            None => String::from_str("unknown failure"),
        };
        return Err(TrackerResponseError::TrackerFailure(reason));
    }
    let interval = match int_field(&value, "interval") {
        Some(n) => i64_as_u64(n),
        None => {
            return Err(TrackerResponseError::MissingField(String::from_str("interval")));
        },
    };
    let min_interval = opt_u64_field(&value, "min interval");
    let peers = match parse_peers(&value) {
        Ok(p) => p,
        Err(e) => {
            return Err(e);
        },
    };
    let complete = opt_u64_field(&value, "complete");
    let incomplete = opt_u64_field(&value, "incomplete");
    let downloaded = opt_u64_field(&value, "downloaded");
    let tracker_id = text_field(&value, "tracker id");
    let warning_message = text_field(&value, "warning message");
    Ok(
        TrackerResponse {
            interval,
            min_interval,
            peers,
            complete,
            incomplete,
            downloaded,
            tracker_id,
            warning_message,
        },
    )
}

/// In a successful response each field is read from its own key: the
/// interval and the optional counts are the integers under `interval`,
/// `min interval`, `complete`, `incomplete` and `downloaded` (an absent key
/// gives no count), and the tracker ID and the warning are the texts whose
/// UTF-8 encodings stand under `tracker id` and `warning message` (an absent
/// key gives no text).
pub proof fn law_response_fields(root: Bencoded, text: Seq<char>, n: int)
    requires
        0 <= n <= u64::MAX,
    ensures
        response_spec(root) matches Ok(m) ==> {
            &&& root.get("interval".spec_bytes()) == Some(Bencoded::Int(n)) ==> m.interval == n
            &&& root.get("min interval".spec_bytes()) == Some(Bencoded::Int(n)) ==> m.min_interval
                == Some(n as u64)
            &&& root.get("min interval".spec_bytes()) is None ==> m.min_interval is None
            &&& root.get("complete".spec_bytes()) == Some(Bencoded::Int(n)) ==> m.complete == Some(
                n as u64,
            )
            &&& root.get("complete".spec_bytes()) is None ==> m.complete is None
            &&& root.get("incomplete".spec_bytes()) == Some(Bencoded::Int(n)) ==> m.incomplete
                == Some(n as u64)
            &&& root.get("incomplete".spec_bytes()) is None ==> m.incomplete is None
            &&& root.get("downloaded".spec_bytes()) == Some(Bencoded::Int(n)) ==> m.downloaded
                == Some(n as u64)
            &&& root.get("downloaded".spec_bytes()) is None ==> m.downloaded is None
            &&& root.get("tracker id".spec_bytes()) == Some(Bencoded::Str(encode_utf8(text)))
                ==> m.tracker_id == Some(text)
            &&& root.get("tracker id".spec_bytes()) is None ==> m.tracker_id is None
            &&& root.get("warning message".spec_bytes()) == Some(Bencoded::Str(encode_utf8(text)))
                ==> m.warning_message == Some(text)
            &&& root.get("warning message".spec_bytes()) is None ==> m.warning_message is None
        },
{
    encode_utf8_valid_utf8(text);
    encode_utf8_decode_utf8(text);
}

/// Compact peers are read six bytes at a time, in order: appending a peer's
/// four address bytes and its port in big-endian to a compact peer string
/// appends that peer, with no peer ID, to the peers it holds.
pub proof fn law_compact_peers(data: Seq<u8>, ip: Seq<u8>, port: u16)
    requires
        data.len() % 6 == 0,
        ip.len() == 4,
    ensures
        compact_peers_spec(data + ip + seq![(port / 256) as u8, (port % 256) as u8]) == Ok::<
            Seq<(Seq<u8>, u16, Option<Seq<u8>>)>,
            ResponseFailure,
        >(compact_peers_spec(data)->Ok_0.push((ip, port, None))),
{
    let entry = ip + seq![(port / 256) as u8, (port % 256) as u8];
    let all = data + entry;
    assert(data + ip + seq![(port / 256) as u8, (port % 256) as u8] =~= all);
    let k: int = (data.len() / 6) as int;
    assert(all.len() == data.len() + 6);
    assert(all.len() % 6 == 0);
    assert(all.len() / 6 == k + 1);
    let before = compact_peers_spec(data)->Ok_0;
    let after = compact_peers_spec(all)->Ok_0;
    assert forall|j: int| 0 <= j < k implies after[j] == before[j] by {
        assert(all.subrange(6 * j, 6 * j + 4) =~= data.subrange(6 * j, 6 * j + 4));
        assert(all[6 * j + 4] == data[6 * j + 4]);
        assert(all[6 * j + 5] == data[6 * j + 5]);
    }
    assert(all.subrange(6 * k, 6 * k + 4) =~= ip);
    assert(all[6 * k + 4] == (port / 256) as u8);
    assert(all[6 * k + 5] == (port % 256) as u8);
    assert(((port / 256) as u8) * 256 + ((port % 256) as u8) == port);
    assert(after =~= before.push((ip, port, None)));
}

/// A peer in dictionary form is read from its own keys: the dotted
/// address under `ip` gives its four octets, the integer under `port` its
/// port, and the bytes under `peer id` its peer ID (none when absent).
pub proof fn law_dict_peer(v: Bencoded, ip: Seq<char>, port: u16, peer_id: Seq<u8>)
    ensures
        dict_peer_spec(v) is Ok ==> ({
            let p = dict_peer_spec(v)->Ok_0;
            &&& v.get("ip".spec_bytes()) == Some(Bencoded::Str(encode_utf8(ip))) ==> Some(p.0)
                == ipv4_octets(ip)
            &&& v.get("port".spec_bytes()) == Some(Bencoded::Int(port as int)) ==> p.1 == port
            &&& v.get("peer id".spec_bytes()) == Some(Bencoded::Str(peer_id)) ==> p.2 == Some(
                peer_id,
            )
            &&& v.get("peer id".spec_bytes()) is None ==> p.2 is None
        }),
        (v.dict() is Some && v.get("ip".spec_bytes()) == Some(Bencoded::Str(encode_utf8(ip)))
            && ipv4_octets(ip) is Some && v.get("port".spec_bytes()) == Some(
            Bencoded::Int(port as int),
        )) ==> dict_peer_spec(v) is Ok,
{
    encode_utf8_valid_utf8(ip);
    encode_utf8_decode_utf8(ip);
    assert(((port as int) as u64) % 0x10000 == port);
}

/// The characters of a digit string have the value its bytes have.
proof fn lemma_digit_chars_value(s: Seq<u8>)
    ensures
        digit_chars_value(ascii_chars(s)) == digits_value(s),
    decreases s.len(),
{
    if s.len() > 0 {
        lemma_digit_chars_value(s.drop_last());
        assert(ascii_chars(s).drop_last() =~= ascii_chars(s.drop_last()));
    }
}

/// The decimal text of an octet is an octet that reads back as it.
proof fn lemma_octet_text(x: u8)
    ensures
        octet(ascii_chars(decimal(x as nat))) == Some(x),
        forall|j: int| 0 <= j < ascii_chars(decimal(x as nat)).len() ==> #[trigger] ascii_chars(
            decimal(x as nat),
        )[j] != '.',
{
    let b = decimal(x as nat);
    let d = ascii_chars(b);
    lemma_decimal(x as nat);
    lemma_digit_chars_value(b);
    reveal_with_fuel(decimal, 4);
    assert(d.len() <= 3);
    assert forall|j: int| 0 <= j < d.len() implies is_ascii_digit(#[trigger] d[j]) by {
        assert(is_digit(b[j]));
    }
    if x > 0 {
        assert(b[0] != 48u8);
    } else {
        assert(d.len() == 1);
    }
}

/// A dotted address of four decimal octets reads back as those octets.
pub proof fn law_dotted_address(a: u8, b: u8, c: u8, d: u8)
    ensures
        ipv4_octets(ascii_chars(decimal(a as nat)) + "."@ + ascii_chars(decimal(b as nat)) + "."@
            + ascii_chars(decimal(c as nat)) + "."@ + ascii_chars(decimal(d as nat))) == Some(
            seq![a, b, c, d],
        ),
{
    reveal_strlit(".");
    let (ta, tb, tc, td) = (
        ascii_chars(decimal(a as nat)),
        ascii_chars(decimal(b as nat)),
        ascii_chars(decimal(c as nat)),
        ascii_chars(decimal(d as nat)),
    );
    lemma_octet_text(a);
    lemma_octet_text(b);
    lemma_octet_text(c);
    lemma_octet_text(d);
    let s = ta + "."@ + tb + "."@ + tc + "."@ + td;
    let d1 = ta.len() as int;
    let d2 = d1 + 1 + tb.len();
    let d3 = d2 + 1 + tc.len();
    assert(s =~= ta + seq!['.'] + tb + seq!['.'] + tc + seq!['.'] + td);
    assert(s[d1] == '.' && s[d2] == '.' && s[d3] == '.');
    lemma_index_of(s, '.', 0);
    assert(index_of(s, '.', 0) == Some(d1)) by {
        if let Some(j) = index_of(s, '.', 0) {
            if j < d1 {
                assert(s[j] == ta[j]);
            }
        }
    }
    lemma_index_of(s, '.', d1 + 1);
    assert(index_of(s, '.', d1 + 1) == Some(d2)) by {
        if let Some(j) = index_of(s, '.', d1 + 1) {
            if j < d2 {
                assert(s[j] == tb[j - d1 - 1]);
            }
        }
    }
    lemma_index_of(s, '.', d2 + 1);
    assert(index_of(s, '.', d2 + 1) == Some(d3)) by {
        if let Some(j) = index_of(s, '.', d2 + 1) {
            if j < d3 {
                assert(s[j] == tc[j - d2 - 1]);
            }
        }
    }
    lemma_index_of(s, '.', d3 + 1);
    assert(index_of(s, '.', d3 + 1) is None) by {
        if let Some(j) = index_of(s, '.', d3 + 1) {
            assert(s[j] == td[j - d3 - 1]);
        }
    }
    assert(s.subrange(0, d1) =~= ta);
    assert(s.subrange(d1 + 1, d2) =~= tb);
    assert(s.subrange(d2 + 1, d3) =~= tc);
    assert(s.subrange(d3 + 1, s.len() as int) =~= td);
}

/// A tracker that states a failure reason has refused the announce, with
/// that reason, whatever else the response holds; a response without an
/// integer `interval` is refused for that missing field.
pub proof fn law_response_failure(root: Bencoded, reason: Seq<char>)
    ensures
        root.dict() is Some && root.get("failure reason".spec_bytes()) == Some(
            Bencoded::Str(encode_utf8(reason)),
        ) ==> response_spec(root) == Err::<ResponseModel, ResponseFailure>(
            ResponseFailure::TrackerFailure(reason),
        ),
        root.dict() is Some && root.get("failure reason".spec_bytes()) is None && field_int(
            root,
            "interval".spec_bytes(),
        ) is None ==> response_spec(root) == Err::<ResponseModel, ResponseFailure>(
            ResponseFailure::MissingField("interval"@),
        ),
{
    encode_utf8_valid_utf8(reason);
    encode_utf8_decode_utf8(reason);
}

/// The model of a parsed response holds each of its fields under the same
/// name: the interval and the counts as they are, the texts by their
/// characters, and each peer by its address, port and peer ID, in order.
pub proof fn law_response_view(r: TrackerResponse)
    ensures
        r@.interval == r.interval,
        r@.min_interval == r.min_interval,
        r@.complete == r.complete,
        r@.incomplete == r.incomplete,
        r@.downloaded == r.downloaded,
        r.tracker_id is None <==> r@.tracker_id is None,
        r.tracker_id is Some ==> r@.tracker_id == Some(r.tracker_id.unwrap()@),
        r.warning_message is None <==> r@.warning_message is None,
        r.warning_message is Some ==> r@.warning_message == Some(r.warning_message.unwrap()@),
        r@.peers.len() == r.peers@.len(),
        forall|i: int|
            0 <= i < r.peers@.len() ==> (#[trigger] r@.peers[i]).0 == r.peers@[i].ip@ && r@.peers[i].1
                == r.peers@[i].port && (r.peers@[i].peer_id is None <==> r@.peers[i].2 is None),
{
}

} // verus!
