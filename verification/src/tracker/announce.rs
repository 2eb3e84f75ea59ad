//! HTTP tracker announce request builder.
//!
//! Builds announce URLs from a tracker URL and query template with placeholder
//! substitution, in the placeholder format of client profiles.
use vstd::prelude::*;
use vstd::string::StringSliceAdditionalSpecFns;

use crate::encoding::url::{url_encode, url_encoded};
use crate::strings::{
    chars_range, find_char, index_of, lemma_index_of, lemma_index_of_skip, str_chars, str_eq,
    string_from_range, strip_cr, trim, trim_bounds, trim_end, trim_start, trimmed_string, whitespace,
};
use crate::text::{ascii_chars, decimal, decimal_string, push_char};

verus! {

broadcast use vstd::std_specs::vec::group_vec_axioms;

/// Parameters for an announce request.
#[derive(Debug, Clone)]
pub struct AnnounceParams {
    /// The info_hash (20 bytes), URL-encoded when sent.
    pub info_hash: [u8; 20],
    /// The peer_id (20 bytes), URL-encoded when sent.
    pub peer_id: [u8; 20],
    /// Listening port.
    pub port: u16,
    /// Total bytes uploaded.
    pub uploaded: u64,
    /// Total bytes downloaded.
    pub downloaded: u64,
    /// Bytes remaining (left = total_size - downloaded).
    pub left: u64,
    /// Number of peers wanted.
    pub numwant: u32,
    /// Random key for this session.
    pub key: String,
    /// Event: "started", "stopped", "completed", or "" for regular announces.
    pub event: String,
    /// Local IP address (may be empty).
    pub local_ip: String,
}

// ---------------------------------------------------------------------------
// Specification
// ---------------------------------------------------------------------------

/// `value` rounded down to a multiple of `denominator` (unchanged for 0).
pub open spec fn rounded_down(value: u64, denominator: u64) -> u64 {
    if denominator == 0 {
        value
    } else {
        (value - value % denominator) as u64
    }
}

/// The decimal text of a number.
pub open spec fn decimal_text(n: nat) -> Seq<char> {
    ascii_chars(decimal(n))
}

/// The value of the first placeholder in `table` named `name`.
pub open spec fn lookup(table: Seq<(Seq<char>, Seq<char>)>, name: Seq<char>) -> Option<Seq<char>>
    decreases table.len(),
{
    if table.len() == 0 {
        None
    } else if table[0].0 == name {
        Some(table[0].1)
    } else {
        lookup(table.drop_first(), name)
    }
}

/// The substitution of placeholders in the text of a template, from
/// position `i` on: a `{` that opens a placeholder named in `table` (up to
/// the first `}` after it) is replaced by its value, which is not scanned
/// again; every other character is copied as it stands.
pub open spec fn substituted(t: Seq<char>, table: Seq<(Seq<char>, Seq<char>)>, i: int) -> Seq<char>
    decreases t.len() - i,
{
    if i < 0 || i >= t.len() {
        Seq::empty()
    } else {
        proof {
            lemma_index_of(t, '}', i);
        }
        match index_of(t, '}', i) {
            Some(c) if t[i] == '{' && lookup(table, t.subrange(i, c + 1)) is Some => lookup(
                table,
                t.subrange(i, c + 1),
            ).unwrap() + substituted(t, table, c + 1),
            _ => seq![t[i]] + substituted(t, table, i + 1),
        }
    }
}

/// The placeholder table for computed values `vals` (info hash, peer id,
/// port, uploaded, downloaded, left, numwant, in that order) and the texts
/// of `p`.
pub open spec fn values_table(vals: Seq<Seq<char>>, p: AnnounceParams) -> Seq<
    (Seq<char>, Seq<char>),
> {
    seq![
        ("{infohash}"@, vals[0]),
        ("{peerid}"@, vals[1]),
        ("{port}"@, vals[2]),
        ("{uploaded}"@, vals[3]),
        ("{downloaded}"@, vals[4]),
        ("{left}"@, vals[5]),
        ("{numwant}"@, vals[6]),
        ("{key}"@, p.key@),
        ("{event}"@, p.event@),
        ("{localip}"@, p.local_ip@),
    ]
}

/// The computed placeholder values. Uploaded and downloaded byte counts are
/// rounded (to multiples of 16 KiB and 16 bytes) when `rounded` is set.
pub open spec fn computed_values(p: AnnounceParams, uppercase: bool, rounded: bool) -> Seq<
    Seq<char>,
> {
    let uploaded = if rounded {
        rounded_down(p.uploaded, 0x4000)
    } else {
        p.uploaded
    };
    let downloaded = if rounded {
        rounded_down(p.downloaded, 0x10)
    } else {
        p.downloaded
    };
    seq![
        url_encoded(p.info_hash@, uppercase),
        url_encoded(p.peer_id@, uppercase),
        decimal_text(p.port as nat),
        decimal_text(uploaded as nat),
        decimal_text(downloaded as nat),
        decimal_text(p.left as nat),
        decimal_text(p.numwant as nat),
    ]
}

/// The placeholders and their values.
pub open spec fn placeholder_table(p: AnnounceParams, uppercase: bool, rounded: bool) -> Seq<
    (Seq<char>, Seq<char>),
> {
    values_table(computed_values(p, uppercase, rounded), p)
}

/// The announce URL: the tracker URL, `?` (or `&` when the URL already has a
/// query), and the substituted query template.
pub open spec fn announce_url(
    tracker_url: Seq<char>,
    template: Seq<char>,
    p: AnnounceParams,
    uppercase: bool,
) -> Seq<char> {
    let separator = if index_of(tracker_url, '?', 0) is Some {
        '&'
    } else {
        '?'
    };
    tracker_url.push(separator) + substituted(template, placeholder_table(p, uppercase, true), 0)
}

/// The view of a placeholder table given as string pairs.
pub open spec fn table_view(reps: Seq<(&str, &str)>) -> Seq<(Seq<char>, Seq<char>)> {
    reps.map_values(|e: (&str, &str)| (e.0@, e.1@))
}

/// The header a template line gives: the line trimmed, its placeholders
/// substituted, then split at the first `:` into a trimmed name and value.
/// Blank lines and lines without `:` give none.
pub open spec fn header_entry(line: Seq<char>, table: Seq<(Seq<char>, Seq<char>)>) -> Option<
    (Seq<char>, Seq<char>),
> {
    let l = trim(line);
    if l.len() == 0 {
        None
    } else {
        let p = substituted(l, table, 0);
        match index_of(p, ':', 0) {
            Some(k) => Some((trim(p.take(k)), trim(p.skip(k + 1)))),
            None => None,
        }
    }
}

/// The headers of a template, one per line (lines end at `\n`, and a
/// `\r` before it is dropped), in order.
pub open spec fn headers_spec(t: Seq<char>, table: Seq<(Seq<char>, Seq<char>)>) -> Seq<
    (Seq<char>, Seq<char>),
>
    decreases t.len(),
{
    if t.len() == 0 {
        Seq::empty()
    } else {
        proof {
            lemma_index_of(t, '\n', 0);
        }
        let line = match index_of(t, '\n', 0) {
            Some(k) => strip_cr(t.take(k)),
            None => t,
        };
        let rest = match index_of(t, '\n', 0) {
            Some(k) => t.skip(k + 1),
            None => Seq::<char>::empty(),
        };
        match header_entry(line, table) {
            Some(h) => seq![h] + headers_spec(rest, table),
            None => headers_spec(rest, table),
        }
    }
}

/// The texts of a list of string pairs.
pub open spec fn pairs_view(v: Seq<(String, String)>) -> Seq<(Seq<char>, Seq<char>)> {
    v.map_values(|e: (String, String)| (e.0@, e.1@))
}

// ---------------------------------------------------------------------------
// Implementation
// ---------------------------------------------------------------------------

/// Rounds a value down to the nearest multiple of the denominator:
/// `value - (value % denominator)`, and `value` itself for a zero
/// denominator.
pub fn round_by_denominator(value: u64, denominator: u64) -> (r: u64)
    ensures
        r == rounded_down(value, denominator),
{
    if denominator == 0 {
        return value;
    }
    assert(value % denominator <= value) by (nonlinear_arith)
        requires
            denominator > 0,
    ;
    value - (value % denominator)
}

fn find_placeholder(replacements: &[(&str, &str)], name: &str) -> (r: Option<usize>)
    ensures
        match lookup(table_view(replacements@), name@) {
            Some(v) => r matches Some(k) && k < replacements@.len() && replacements@[k as int].1@
                == v,
            None => r is None,
        },
{
    let ghost tv = table_view(replacements@);
    let mut k: usize = 0;
    assert(tv.skip(0) =~= tv);
    while k < replacements.len()
        invariant
            k <= replacements@.len(),
            tv == table_view(replacements@),
            lookup(tv, name@) == lookup(tv.skip(k as int), name@),
        decreases replacements.len() - k,
    {
        assert(tv.skip(k as int).drop_first() =~= tv.skip(k + 1));
        assert(tv.skip(k as int)[0] == (replacements@[k as int].0@, replacements@[k as int].1@));
        if str_eq(replacements[k].0, name) {
            return Some(k);
        }
        k += 1;
    }
    None
}

/// Single-pass placeholder substitution.
///
/// Scans the template once, copying literal text and replacing `{name}` placeholders
/// as they are encountered.
fn substitute_placeholders(template: &str, replacements: &[(&str, &str)]) -> (r: String)
    ensures
        r@ == substituted(template@, table_view(replacements@), 0),
{
    let ghost table = table_view(replacements@);
    let chars = str_chars(template);
    let bytes = chars.as_slice();
    let ghost t = bytes@;
    let len = bytes.len();
    let mut result = String::new();
    let mut i: usize = 0;
    while i < len
        invariant
            i <= len == t.len(),
            t == bytes@,
            table == table_view(replacements@),
            result@ + substituted(t, table, i as int) == substituted(t, table, 0),
        decreases len - i,
    {
        proof {
            lemma_index_of(t, '}', i as int);
        }
        if bytes[i] == '{' {
            match find_char(bytes, '}', i) {
                Some(close) => {
                    let name = string_from_range(bytes, i, close + 1);
                    match find_placeholder(replacements, name.as_str()) {
                        Some(k) => {
                            let ghost before = result@;
                            result.append(replacements[k].1);
                            assert(result@ =~= before + lookup(table, t.subrange(i as int, close + 1)).unwrap());
                            i = close + 1;
                            continue ;
                        },
                        None => {},
                    }
                },
                None => {},
            }
        }
        let ghost before = result@;
        push_char(&mut result, bytes[i]);
        assert(result@ =~= before + seq![t[i as int]]);
        i += 1;
    }
    assert(substituted(t, table, i as int) =~= Seq::<char>::empty());
    assert(result@ =~= result@ + Seq::<char>::empty());
    result
}

/// The computed placeholder values, as strings.
fn computed_strings(params: &AnnounceParams, uppercase: bool, rounded: bool) -> (r: Vec<String>)
    ensures
        r@.len() == 7,
        r@.map_values(|s: String| s@) == computed_values(*params, uppercase, rounded),
{
    let info_hash_encoded = url_encode(params.info_hash.as_slice(), uppercase);
    let peer_id_encoded = url_encode(params.peer_id.as_slice(), uppercase);
    let (uploaded, downloaded) = if rounded {
        (
            round_by_denominator(params.uploaded, 0x4000),
            round_by_denominator(params.downloaded, 0x10),
        )
    } else {
        (params.uploaded, params.downloaded)
    };
    let v = vec![
        info_hash_encoded,
        peer_id_encoded,
        decimal_string(params.port as u64),
        decimal_string(uploaded),
        decimal_string(downloaded),
        decimal_string(params.left),
        decimal_string(params.numwant as u64),
    ];
    assert(v@.map_values(|s: String| s@) =~= computed_values(*params, uppercase, rounded));
    v
}

/// The placeholder table over computed values and the texts of `params`.
fn placeholder_pairs<'a>(vals: &'a Vec<String>, params: &'a AnnounceParams) -> (r: Vec<
    (&'a str, &'a str),
>)
    requires
        vals@.len() == 7,
    ensures
        table_view(r@) == values_table(vals@.map_values(|s: String| s@), *params),
{
    let r = vec![
        ("{infohash}", vals[0].as_str()),
        ("{peerid}", vals[1].as_str()),
        ("{port}", vals[2].as_str()),
        ("{uploaded}", vals[3].as_str()),
        ("{downloaded}", vals[4].as_str()),
        ("{left}", vals[5].as_str()),
        ("{numwant}", vals[6].as_str()),
        ("{key}", params.key.as_str()),
        ("{event}", params.event.as_str()),
        ("{localip}", params.local_ip.as_str()),
    ];
    assert(table_view(r@) =~= values_table(vals@.map_values(|s: String| s@), *params));
    r
}

/// Builds the full announce URL by appending query parameters to the tracker URL.
///
/// Uses a query template string with placeholders that get replaced with actual values.
/// Placeholders: `{infohash}`, `{peerid}`, `{port}`, `{uploaded}`, `{downloaded}`,
/// `{left}`, `{numwant}`, `{key}`, `{event}`, `{localip}`. Uploaded and
/// downloaded byte counts are rounded down to multiples of 16 KiB and 16
/// bytes.
pub fn build_announce_url(
    tracker_url: &str,
    query_template: &str,
    params: &AnnounceParams,
    uppercase_hash: bool,
) -> (r: String)
    ensures
        r@ == announce_url(tracker_url@, query_template@, *params, uppercase_hash),
{
    let vals = computed_strings(params, uppercase_hash, true);
    let replacements = placeholder_pairs(&vals, params);
    let query = substitute_placeholders(query_template, replacements.as_slice());
    let chars = str_chars(tracker_url);
    let separator = if find_char(chars.as_slice(), '?', 0).is_some() {
        '&'
    } else {
        '?'
    };
    let mut url = String::from_str(tracker_url);
    push_char(&mut url, separator);
    url.append(query.as_str());
    url
}

/// The header a template line gives, if any.
fn header_line(line: &[char], replacements: &[(&str, &str)]) -> (r: Option<(String, String)>)
    ensures
        match header_entry(line@, table_view(replacements@)) {
            Some(h) => r matches Some(x) && x.0@ == h.0 && x.1@ == h.1,
            None => r is None,
        },
{
    let (a, b) = trim_bounds(line);
    if a == b {
        return None;
    }
    let trimmed = string_from_range(line, a, b);
    let processed = substitute_placeholders(trimmed.as_str(), replacements);
    let p = str_chars(processed.as_str());
    match find_char(p.as_slice(), ':', 0) {
        Some(k) => {
            proof {
                lemma_index_of(p@, ':', 0);
            }
            let key = chars_range(p.as_slice(), 0, k);
            let value = chars_range(p.as_slice(), k + 1, p.len());
            assert(key@ =~= p@.take(k as int));
            assert(value@ =~= p@.skip(k + 1));
            Some((trimmed_string(key.as_slice()), trimmed_string(value.as_slice())))
        },
        None => None,
    }
}

/// Builds custom HTTP headers from a header template.
///
/// The template contains one header per line, `Name: value`. Placeholders
/// are substituted the same way as the query template, without rounding.
pub fn build_headers(headers_template: &str, params: &AnnounceParams, uppercase_hash: bool) -> (r:
    Vec<(String, String)>)
    ensures
        pairs_view(r@) == headers_spec(headers_template@, placeholder_table(*params, uppercase_hash, false)),
{
    let vals = computed_strings(params, uppercase_hash, false);
    let replacements = placeholder_pairs(&vals, params);
    let ghost table = placeholder_table(*params, uppercase_hash, false);
    let t = str_chars(headers_template);
    let mut headers: Vec<(String, String)> = Vec::new();
    let mut pos: usize = 0;
    assert(t@.skip(0) =~= t@);
    while pos < t.len()
        invariant
            pos <= t@.len(),
            t@ == headers_template@,
            table == table_view(replacements@),
            pairs_view(headers@) + headers_spec(t@.skip(pos as int), table) == headers_spec(t@, table),
        decreases t.len() - pos,
    {
        let ghost rest = t@.skip(pos as int);
        proof {
            lemma_index_of_skip(t@, '\n', pos as int, 0);
            lemma_index_of(t@, '\n', pos as int);
        }
        let (end, next) = match find_char(t.as_slice(), '\n', pos) {
            Some(k) => {
                assert(rest.take(k - pos) =~= t@.subrange(pos as int, k as int));
                assert(rest.skip(k - pos + 1) =~= t@.skip(k + 1));
                if k > pos && t[k - 1] == '\r' {
                    assert(strip_cr(rest.take(k - pos)) =~= t@.subrange(pos as int, k - 1));
                    (k - 1, k + 1)
                } else {
                    (k, k + 1)
                }
            },
            None => {
                assert(rest =~= t@.subrange(pos as int, t.len() as int));
                assert(t@.skip(t.len() as int) =~= Seq::<char>::empty());
                (t.len(), t.len())
            },
        };
        let line = chars_range(t.as_slice(), pos, end);
        let ghost before = pairs_view(headers@);
        match header_line(line.as_slice(), replacements.as_slice()) {
            Some(h) => {
                headers.push(h);
                assert(pairs_view(headers@) =~= before + seq![(h.0@, h.1@)]);
            },
            None => {},
        }
        pos = next;
    }
    assert(t@.skip(pos as int) =~= Seq::<char>::empty());
    assert(pairs_view(headers@) =~= pairs_view(headers@) + Seq::<(Seq<char>, Seq<char>)>::empty());
    headers
}

/// Each announce placeholder stands for its own parameter: the info hash
/// and peer ID percent-encoded, the port, the left count and the number of
/// peers wanted in decimal, the uploaded count rounded down to whole 16 KiB
/// and the downloaded count to whole 16 bytes (or kept exact when the table
/// is not rounded), and the key, event and local address as given.
pub proof fn law_placeholder_values(p: AnnounceParams, uppercase: bool, rounded: bool)
    ensures
        ({
            let t = placeholder_table(p, uppercase, rounded);
            &&& lookup(t, "{infohash}"@) == Some(url_encoded(p.info_hash@, uppercase))
            &&& lookup(t, "{peerid}"@) == Some(url_encoded(p.peer_id@, uppercase))
            &&& lookup(t, "{port}"@) == Some(decimal_text(p.port as nat))
            &&& lookup(t, "{uploaded}"@) == Some(
                decimal_text(
                    (if rounded {
                        p.uploaded - p.uploaded % 16384
                    } else {
                        p.uploaded as int
                    }) as nat,
                ),
            )
            &&& lookup(t, "{downloaded}"@) == Some(
                decimal_text(
                    (if rounded {
                        p.downloaded - p.downloaded % 16
                    } else {
                        p.downloaded as int
                    }) as nat,
                ),
            )
            &&& lookup(t, "{left}"@) == Some(decimal_text(p.left as nat))
            &&& lookup(t, "{numwant}"@) == Some(decimal_text(p.numwant as nat))
            &&& lookup(t, "{key}"@) == Some(p.key@)
            &&& lookup(t, "{event}"@) == Some(p.event@)
            &&& lookup(t, "{localip}"@) == Some(p.local_ip@)
        }),
{
    reveal_strlit("{infohash}");
    reveal_strlit("{peerid}");
    reveal_strlit("{port}");
    reveal_strlit("{uploaded}");
    reveal_strlit("{downloaded}");
    reveal_strlit("{left}");
    reveal_strlit("{numwant}");
    reveal_strlit("{key}");
    reveal_strlit("{event}");
    reveal_strlit("{localip}");
    // The names differ in length, or else in their second character.
    assert("{infohash}"@.len() == 10 && "{peerid}"@.len() == 8 && "{port}"@.len() == 6
        && "{uploaded}"@.len() == 10 && "{downloaded}"@.len() == 12 && "{left}"@.len() == 6
        && "{numwant}"@.len() == 9 && "{key}"@.len() == 5 && "{event}"@.len() == 7
        && "{localip}"@.len() == 9);
    assert("{infohash}"@[1] != "{uploaded}"@[1] && "{port}"@[1] != "{left}"@[1] && "{numwant}"@[1]
        != "{localip}"@[1]);
    reveal_with_fuel(lookup, 11);
}

/// Substitution from position `|a| + j` of `a + b` is substitution from
/// position `j` of `b`: what comes before does not change what follows.
proof fn lemma_substituted_shift(a: Seq<char>, b: Seq<char>, table: Seq<(Seq<char>, Seq<char>)>, j: int)
    requires
        0 <= j <= b.len(),
    ensures
        substituted(a + b, table, a.len() + j) == substituted(b, table, j),
    decreases b.len() - j,
{
    let s = a + b;
    let i = a.len() + j;
    if j < b.len() {
        assert(s.skip(a.len() as int) =~= b);
        lemma_index_of_skip(s, '}', a.len() as int, j);
        lemma_index_of(b, '}', j);
        assert(s[i] == b[j]);
        match index_of(b, '}', j) {
            Some(c) => {
                assert(s.subrange(i, a.len() + c + 1) =~= b.subrange(j, c + 1));
                lemma_substituted_shift(a, b, table, c + 1);
            },
            None => {},
        }
        lemma_substituted_shift(a, b, table, j + 1);
    }
}

/// Text with no `{` from position `i` to `k` is copied as it stands.
proof fn lemma_substituted_plain(t: Seq<char>, table: Seq<(Seq<char>, Seq<char>)>, i: int, k: int)
    requires
        0 <= i <= k <= t.len(),
        forall|m: int| i <= m < k ==> t[m] != '{',
    ensures
        substituted(t, table, i) == t.subrange(i, k) + substituted(t, table, k),
    decreases k - i,
{
    if i < k {
        lemma_substituted_plain(t, table, i + 1, k);
        assert(t.subrange(i, k) =~= seq![t[i]] + t.subrange(i + 1, k));
    } else {
        assert(t.subrange(i, k) =~= Seq::<char>::empty());
    }
}

/// Substitution copies text that holds no `{` unchanged, and replaces a
/// placeholder named in the table (a `{`, then no `}`, then `}`) by its
/// value, leaving the text before it as it stands and going on after it.
pub proof fn law_substitution(
    pre: Seq<char>,
    name: Seq<char>,
    post: Seq<char>,
    table: Seq<(Seq<char>, Seq<char>)>,
)
    ensures
        (forall|m: int| 0 <= m < pre.len() ==> pre[m] != '{') ==> substituted(pre, table, 0) == pre,
        ({
            &&& forall|m: int| 0 <= m < pre.len() ==> pre[m] != '{'
            &&& name.len() >= 2 && name[0] == '{' && name.last() == '}'
            &&& forall|m: int| 0 <= m < name.len() - 1 ==> name[m] != '}'
            &&& lookup(table, name) is Some
        }) ==> substituted(pre + name + post, table, 0) == pre + lookup(table, name).unwrap()
            + substituted(post, table, 0),
{
    if forall|m: int| 0 <= m < pre.len() ==> pre[m] != '{' {
        lemma_substituted_plain(pre, table, 0, pre.len() as int);
        assert(pre.subrange(0, pre.len() as int) =~= pre);
        assert(substituted(pre, table, pre.len() as int) =~= Seq::<char>::empty());
        if name.len() >= 2 && name[0] == '{' && name.last() == '}' && (forall|m: int|
            0 <= m < name.len() - 1 ==> name[m] != '}') && lookup(table, name) is Some {
            let t = pre + name + post;
            let i = pre.len() as int;
            let c = i + name.len() - 1;
            assert forall|m: int| 0 <= m < i implies t[m] != '{' by {
                assert(t[m] == pre[m]);
            }
            lemma_substituted_plain(t, table, 0, i);
            assert(t.subrange(0, i) =~= pre);
            lemma_index_of(t, '}', i);
            assert(t[c] == '}');
            assert(index_of(t, '}', i) == Some(c)) by {
                if let Some(k) = index_of(t, '}', i) {
                    if k < c {
                        assert(t[k] == name[k - i]);
                    }
                }
            }
            assert(t.subrange(i, c + 1) =~= name);
            assert(t =~= (pre + name) + post);
            lemma_substituted_shift(pre + name, post, table, 0);
            assert(substituted(t, table, i) == lookup(table, name).unwrap() + substituted(t, table, c + 1));
        }
    }
}

/// An announce URL is the tracker URL itself, then `&` when the tracker URL
/// already holds a `?` and `?` otherwise, then the query template with its
/// placeholders filled in from the rounded counts.
pub proof fn law_announce_url(tracker_url: Seq<char>, template: Seq<char>, p: AnnounceParams, uppercase: bool)
    ensures
        ({
            let r = announce_url(tracker_url, template, p, uppercase);
            let n = tracker_url.len() as int;
            &&& r.take(n) == tracker_url
            &&& r[n] == (if exists|j: int| 0 <= j < n && tracker_url[j] == '?' {
                '&'
            } else {
                '?'
            })
            &&& r.skip(n + 1) == substituted(template, placeholder_table(p, uppercase, true), 0)
        }),
{
    let r = announce_url(tracker_url, template, p, uppercase);
    let n = tracker_url.len() as int;
    lemma_index_of(tracker_url, '?', 0);
    assert(r.take(n) =~= tracker_url);
    assert(r.skip(n + 1) =~= substituted(template, placeholder_table(p, uppercase, true), 0));
    if exists|j: int| 0 <= j < n && tracker_url[j] == '?' {
        let j = choose|j: int| 0 <= j < n && tracker_url[j] == '?';
        assert(index_of(tracker_url, '?', 0) is Some);
    }
}

/// Text as it stands in a header line: not empty, not starting or ending
/// with whitespace, and holding no `{`, `:`, carriage return or line feed.
pub open spec fn plain_header_text(s: Seq<char>) -> bool {
    &&& s.len() > 0 && !whitespace(s[0]) && !whitespace(s.last())
    &&& forall|m: int|
        0 <= m < s.len() ==> #[trigger] s[m] != '{' && s[m] != ':' && s[m] != '\r' && s[m] != '\n'
}

/// A header line `Name: value` of plain text gives the header `(Name,
/// value)`.
proof fn lemma_header_line(name: Seq<char>, value: Seq<char>, table: Seq<(Seq<char>, Seq<char>)>)
    requires
        plain_header_text(name),
        plain_header_text(value),
    ensures
        header_entry(name + ": "@ + value, table) == Some((name, value)),
{
    reveal_strlit(": ");
    let line = name + ": "@ + value;
    let k = name.len() as int;
    assert(line[0] == name[0]);
    assert(line.last() == value.last());
    assert(trim_start(line) == line);
    assert(trim_end(line) == line);
    assert forall|m: int| 0 <= m < line.len() implies line[m] != '{' by {
        if m < k {
            assert(line[m] == name[m]);
        } else if m > k + 1 {
            assert(line[m] == value[m - k - 2]);
        }
    }
    lemma_substituted_plain(line, table, 0, line.len() as int);
    assert(line.subrange(0, line.len() as int) =~= line);
    assert(substituted(line, table, line.len() as int) =~= Seq::<char>::empty());
    assert(substituted(line, table, 0) =~= line);
    lemma_index_of(line, ':', 0);
    assert(line[k] == ':');
    assert(index_of(line, ':', 0) == Some(k)) by {
        if let Some(j) = index_of(line, ':', 0) {
            if j < k {
                assert(line[j] == name[j]);
            }
        }
    }
    assert(line.take(k) =~= name);
    assert(trim_start(name) == name && trim_end(name) == name);
    let after = line.skip(k + 1);
    assert(after =~= seq![' '] + value);
    assert(trim_start(after) == trim_start(after.drop_first()));
    assert(after.drop_first() =~= value);
    assert(trim_start(value) == value && trim_end(value) == value);
}

/// A header template is read line by line: a line `Name: value` of plain
/// text, ended by CR LF or by the end of the template, gives the header
/// `(Name, value)`, followed by the headers of the lines after it.
pub proof fn law_header_template(
    name: Seq<char>,
    value: Seq<char>,
    rest: Seq<char>,
    table: Seq<(Seq<char>, Seq<char>)>,
)
    requires
        plain_header_text(name),
        plain_header_text(value),
    ensures
        headers_spec(name + ": "@ + value, table) == seq![(name, value)],
        headers_spec(name + ": "@ + value + "\r\n"@ + rest, table) == seq![(name, value)] + headers_spec(
            rest,
            table,
        ),
{
    reveal_strlit(": ");
    reveal_strlit("\r\n");
    lemma_header_line(name, value, table);
    let line = name + ": "@ + value;
    let k = name.len() as int;
    assert forall|m: int| 0 <= m < line.len() implies line[m] != '\n' && line[m] != '\r' by {
        if m < k {
            assert(line[m] == name[m]);
        } else if m > k + 1 {
            assert(line[m] == value[m - k - 2]);
        }
    }
    lemma_index_of(line, '\n', 0);
    assert(headers_spec(Seq::<char>::empty(), table) == Seq::<(Seq<char>, Seq<char>)>::empty());
    assert(seq![(name, value)] + Seq::<(Seq<char>, Seq<char>)>::empty() =~= seq![(name, value)]);
    let t = line + "\r\n"@ + rest;
    let e = line.len() as int + 1;
    lemma_index_of(t, '\n', 0);
    assert(t[e] == '\n');
    assert(index_of(t, '\n', 0) == Some(e)) by {
        if let Some(j) = index_of(t, '\n', 0) {
            if j < e {
                if j < line.len() {
                    assert(t[j] == line[j]);
                } else {
                    assert(t[j] == '\r');
                }
            }
        }
    }
    assert(t.take(e) =~= line.push('\r'));
    assert(strip_cr(t.take(e)) =~= line);
    assert(t.skip(e + 1) =~= rest);
}

} // verus!
