//! Tracker scrape support.
//!
//! Converts an announce URL to a scrape URL and parses scrape responses.
//! BEP 48: scrape URL is derived by replacing "/announce" with "/scrape" in the path.
use vstd::prelude::*;
use vstd::string::StringSliceAdditionalSpecFns;

use crate::bencode::decoder::decode_spec;
use crate::bencode::fields::{field_int, int_field};
use crate::bencode::{decode, BValue, Bencoded};
use crate::encoding::url::{law_percent_decoding_inverts, percent_decoded, url_encode, url_encoded};
use crate::strings::{
    find_char, index_of, lemma_index_of, occurs_at, occurs_at_exec, str_chars, string_from_range,
};
use crate::text::{i64_as_u64, push_char, wrap_u64};

verus! {

/// Errors that can occur during scrape operations.
#[derive(Debug, PartialEq, Eq)]
pub enum ScrapeError {
    /// The announce URL cannot be converted to a scrape URL.
    InvalidAnnounceUrl(String),
    /// The scrape response could not be parsed.
    InvalidResponse(String),
}

/// The mathematical model of a [`ScrapeError`].
pub enum ScrapeFailure {
    InvalidAnnounceUrl(Seq<char>),
    InvalidResponse(Seq<char>),
}

impl View for ScrapeError {
    type V = ScrapeFailure;

    open spec fn view(&self) -> ScrapeFailure {
        match self {
            ScrapeError::InvalidAnnounceUrl(m) => ScrapeFailure::InvalidAnnounceUrl(m@),
            ScrapeError::InvalidResponse(m) => ScrapeFailure::InvalidResponse(m@),
        }
    }
}

impl ScrapeFailure {
    /// The human-readable description of the failure.
    pub open spec fn message(self) -> Seq<char> {
        match self {
            ScrapeFailure::InvalidAnnounceUrl(m) => "cannot derive scrape URL from: "@ + m,
            ScrapeFailure::InvalidResponse(m) => "invalid scrape response: "@ + m,
        }
    }
}

impl ScrapeError {
    /// The human-readable description of the error.
    pub fn message(&self) -> (r: String)
        ensures
            r@ == self@.message(),
    {
        match self {
            ScrapeError::InvalidAnnounceUrl(m) => String::from_str(
                "cannot derive scrape URL from: ",
            ).concat(m.as_str()),
            ScrapeError::InvalidResponse(m) => String::from_str("invalid scrape response: ").concat(
                m.as_str(),
            ),
        }
    }
}

/// Scrape statistics for a single torrent.
#[derive(Debug, Clone, PartialEq, Eq)]
pub struct ScrapeStats {
    /// Number of seeders (complete peers).
    pub complete: u64,
    /// Number of leechers (incomplete peers).
    pub incomplete: u64,
    /// Number of times the torrent has been downloaded.
    pub downloaded: u64,
}

// ---------------------------------------------------------------------------
// Specification
// ---------------------------------------------------------------------------

/// The last position at or before `k` where `pat` occurs in `s`.
pub open spec fn rfind_from(s: Seq<char>, pat: Seq<char>, k: int) -> Option<int>
    decreases k + 1,
{
    if k < 0 {
        None
    } else if occurs_at(s, pat, k) {
        Some(k)
    } else {
        rfind_from(s, pat, k - 1)
    }
}

/// Where `rfind_from` finds `pat`, it occurs, at or before `k`.
pub proof fn lemma_rfind_from(s: Seq<char>, pat: Seq<char>, k: int)
    ensures
        rfind_from(s, pat, k) matches Some(j) ==> j <= k && occurs_at(s, pat, j),
    decreases k + 1,
{
    if k >= 0 && !occurs_at(s, pat, k) {
        lemma_rfind_from(s, pat, k - 1);
    }
}

/// The last position where `pat` occurs in `s`.
pub open spec fn rfind(s: Seq<char>, pat: Seq<char>) -> Option<int> {
    rfind_from(s, pat, s.len() - pat.len())
}

/// The scrape URL of an announce URL: its last `/announce` replaced by
/// `/scrape`.
pub open spec fn scrape_url_spec(url: Seq<char>) -> Result<Seq<char>, ScrapeFailure> {
    match rfind(url, "/announce"@) {
        Some(k) => Ok(url.take(k) + "/scrape"@ + url.skip(k + 9)),
        None => Err(ScrapeFailure::InvalidAnnounceUrl(url)),
    }
}

/// The scrape request URL: the scrape URL, `?` (or `&` when it already has
/// a query), and the encoded info hash.
pub open spec fn scrape_request_url(url: Seq<char>, info_hash: Seq<u8>, uppercase: bool) -> Seq<
    char,
> {
    let separator = if index_of(url, '?', 0) is Some {
        '&'
    } else {
        '?'
    };
    url.push(separator) + "info_hash="@ + url_encoded(info_hash, uppercase)
}

/// An integer field of the torrent's entry, 0 when absent.
pub open spec fn count_or_zero(v: Bencoded, key: Seq<u8>) -> u64 {
    match field_int(v, key) {
        Some(n) => wrap_u64(n),
        None => 0,
    }
}

/// What a decoded scrape response says of the torrent with `info_hash`.
pub open spec fn stats_spec(root: Bencoded, info_hash: Seq<u8>) -> Result<
    (u64, u64, u64),
    ScrapeFailure,
> {
    if root.dict() is None {
        Err(ScrapeFailure::InvalidResponse("response is not a dict"@))
    } else {
        match root.get("files".spec_bytes()) {
            Some(files) if files.dict() is Some => match files.get(info_hash) {
                Some(t) if t.dict() is Some => Ok(
                    (
                        count_or_zero(t, "complete".spec_bytes()),
                        count_or_zero(t, "incomplete".spec_bytes()),
                        count_or_zero(t, "downloaded".spec_bytes()),
                    ),
                ),
                _ => Err(
                    ScrapeFailure::InvalidResponse("info_hash not found in scrape response"@),
                ),
            },
            _ => Err(ScrapeFailure::InvalidResponse("missing 'files' dict"@)),
        }
    }
}

/// What parsing a scrape response body yields.
pub open spec fn parse_spec(body: Seq<u8>, info_hash: Seq<u8>) -> Result<
    (u64, u64, u64),
    ScrapeFailure,
> {
    match decode_spec(body) {
        Err(e) => Err(ScrapeFailure::InvalidResponse(e.message())),
        Ok(root) => stats_spec(root, info_hash),
    }
}

// ---------------------------------------------------------------------------
// Implementation
// ---------------------------------------------------------------------------

/// Finds the last occurrence of `pat` in `s`.
fn rfind_chars(s: &[char], pat: &[char]) -> (r: Option<usize>)
    ensures
        match r {
            Some(k) => rfind(s@, pat@) == Some(k as int),
            None => rfind(s@, pat@) is None,
        },
{
    if pat.len() > s.len() {
        return None;
    }
    let mut k: usize = s.len() - pat.len();
    loop
        invariant
            k <= s.len() - pat.len(),
            pat.len() <= s.len(),
            rfind(s@, pat@) == rfind_from(s@, pat@, k as int),
        decreases k,
    {
        if occurs_at_exec(s, pat, k) {
            return Some(k);
        }
        if k == 0 {
            return None;
        }
        k -= 1;
    }
}

/// Converts an announce URL to a scrape URL.
///
/// Replaces the last occurrence of "/announce" with "/scrape".
/// Returns an error if the URL doesn't contain "/announce".
pub fn announce_to_scrape_url(announce_url: &str) -> (r: Result<String, ScrapeError>)
    ensures
        match scrape_url_spec(announce_url@) {
            Ok(u) => r matches Ok(x) && x@ == u,
            Err(e) => r matches Err(x) && x@ == e,
        },
{
    let s = str_chars(announce_url);
    let pat = str_chars("/announce");
    proof {
        reveal_strlit("/announce");
        lemma_rfind_from(s@, pat@, s@.len() - pat@.len());
    }
    match rfind_chars(s.as_slice(), pat.as_slice()) {
        Some(pos) => {
            assert(pat@.len() == 9);
            assert(rfind(s@, pat@) == Some(pos as int));
            assert(rfind_from(s@, pat@, s@.len() - pat@.len()) == Some(pos as int));
            assert(occurs_at(s@, pat@, pos as int));
            assert(pos + 9 <= s.len());
            let mut scrape_url = string_from_range(s.as_slice(), 0, pos);
            scrape_url.append("/scrape");
            let tail = string_from_range(s.as_slice(), pos + 9, s.len());
            scrape_url.append(tail.as_str());
            assert(s@.subrange(0, pos as int) =~= s@.take(pos as int));
            assert(s@.subrange(pos + 9, s@.len() as int) =~= s@.skip(pos + 9));
            Ok(scrape_url)
        },
        None => Err(ScrapeError::InvalidAnnounceUrl(String::from_str(announce_url))),
    }
}

/// Builds the scrape request URL by appending the info_hash parameter.
pub fn build_scrape_url(scrape_url: &str, info_hash: &[u8; 20], uppercase: bool) -> (r: String)
    ensures
        r@ == scrape_request_url(scrape_url@, info_hash@, uppercase),
{
    let encoded = url_encode(info_hash.as_slice(), uppercase);
    let chars = str_chars(scrape_url);
    let separator = if find_char(chars.as_slice(), '?', 0).is_some() {
        '&'
    } else {
        '?'
    };
    let mut url = String::from_str(scrape_url);
    push_char(&mut url, separator);
    url.append("info_hash=");
    url.append(encoded.as_str());
    url
}

fn count_field(v: &BValue, key: &str) -> (r: u64)
    ensures
        r == count_or_zero(v.model(), key.spec_bytes()),
{
    match int_field(v, key) {
        Some(n) => i64_as_u64(n),
        None => 0,
    }
}

/// Parses a BEncoded scrape response body.
///
/// Expected format:
/// `d5:filesd20:<info_hash>d8:completei42e10:downloadedi100e10:incompletei7eeee`
pub fn parse(body: &[u8], info_hash: &[u8; 20]) -> (r: Result<ScrapeStats, ScrapeError>)
    ensures
        match parse_spec(body@, info_hash@) {
            Ok(m) => r matches Ok(x) && (x.complete, x.incomplete, x.downloaded) == m,
            Err(e) => r matches Err(x) && x@ == e,
        },
{
    let value = match decode(body) {
        Ok(v) => v,
        Err(e) => {
            return Err(ScrapeError::InvalidResponse(e.message()));
        },
    };
    if value.as_dict().is_none() {
        return Err(ScrapeError::InvalidResponse(String::from_str("response is not a dict")));
    }
    let files = match value.dict_get("files") {
        Some(f) if f.as_dict().is_some() => f,
        _ => {
            return Err(ScrapeError::InvalidResponse(String::from_str("missing 'files' dict")));
        },
    };
    let torrent = match files.dict_get_bytes(info_hash.as_slice()) {
        Some(t) if t.as_dict().is_some() => t,
        _ => {
            return Err(
                ScrapeError::InvalidResponse(
                    String::from_str("info_hash not found in scrape response"),
                ),
            );
        },
    };
    Ok(
        ScrapeStats {
            complete: count_field(torrent, "complete"),
            incomplete: count_field(torrent, "incomplete"),
            downloaded: count_field(torrent, "downloaded"),
        },
    )
}

/// A scrape request URL is the scrape URL itself, then `&` when the scrape
/// URL already holds a `?` and `?` otherwise, then `info_hash=`, then text
/// that percent-decodes to exactly the info hash.
pub proof fn law_scrape_request_url(url: Seq<char>, info_hash: Seq<u8>, uppercase: bool)
    ensures
        ({
            let r = scrape_request_url(url, info_hash, uppercase);
            let n = url.len() as int;
            &&& r.len() >= n + 11
            &&& r.take(n) == url
            &&& r[n] == (if exists|j: int| 0 <= j < url.len() && url[j] == '?' {
                '&'
            } else {
                '?'
            })
            &&& r.subrange(n + 1, n + 11) == "info_hash="@
            &&& percent_decoded(r.skip(n + 11)) == info_hash
        }),
{
    reveal_strlit("info_hash=");
    let n = url.len() as int;
    lemma_index_of(url, '?', 0);
    law_percent_decoding_inverts(info_hash, uppercase);
    let r = scrape_request_url(url, info_hash, uppercase);
    let sep = r[n];
    assert(r.take(n) =~= url);
    assert(r.subrange(n + 1, n + 11) =~= "info_hash="@);
    assert(r.skip(n + 11) =~= url_encoded(info_hash, uppercase));
    if exists|j: int| 0 <= j < url.len() && url[j] == '?' {
        let j = choose|j: int| 0 <= j < url.len() && url[j] == '?';
        assert(index_of(url, '?', 0) is Some);
        assert(sep == '&');
    } else {
        assert(index_of(url, '?', 0) is None);
        assert(sep == '?');
    }
}

/// The entry of the torrent with `info_hash` in the `files` dictionary of a
/// scrape response.
pub open spec fn torrent_entry(root: Bencoded, info_hash: Seq<u8>) -> Option<Bencoded> {
    match root.get("files".spec_bytes()) {
        Some(files) => if files.dict() is Some {
            files.get(info_hash)
        } else {
            None
        },
        None => None,
    }
}

/// The statistics of a scrape come from the torrent's own entry in the
/// `files` dictionary, each count from its own key: seeders from
/// `complete`, leechers from `incomplete`, completed downloads from
/// `downloaded`, and 0 where the key is absent. Without such an entry there
/// are no statistics.
pub proof fn law_scrape_stats(root: Bencoded, info_hash: Seq<u8>, n: int)
    requires
        0 <= n <= u64::MAX,
    ensures
        (root.dict() is Some && torrent_entry(root, info_hash) is Some && torrent_entry(
            root,
            info_hash,
        ).unwrap().dict() is Some) ==> (stats_spec(root, info_hash) is Ok && {
            let e = torrent_entry(root, info_hash).unwrap();
            let stats = stats_spec(root, info_hash)->Ok_0;
            &&& e.get("complete".spec_bytes()) == Some(Bencoded::Int(n)) ==> stats.0 == n
            &&& e.get("complete".spec_bytes()) is None ==> stats.0 == 0
            &&& e.get("incomplete".spec_bytes()) == Some(Bencoded::Int(n)) ==> stats.1 == n
            &&& e.get("incomplete".spec_bytes()) is None ==> stats.1 == 0
            &&& e.get("downloaded".spec_bytes()) == Some(Bencoded::Int(n)) ==> stats.2 == n
            &&& e.get("downloaded".spec_bytes()) is None ==> stats.2 == 0
        }),
        stats_spec(root, info_hash) is Ok ==> torrent_entry(root, info_hash) is Some && torrent_entry(
            root,
            info_hash,
        ).unwrap().dict() is Some,
{
}

/// Searching back from `k` passes over positions where `pat` does not occur.
proof fn lemma_rfind_skips(s: Seq<char>, pat: Seq<char>, j: int, k: int)
    requires
        j <= k,
        forall|m: int| j < m <= k ==> !occurs_at(s, pat, m),
    ensures
        rfind_from(s, pat, k) == rfind_from(s, pat, j),
    decreases k - j,
{
    if j < k {
        lemma_rfind_skips(s, pat, j, k - 1);
    }
}

/// The scrape URL of an announce URL replaces its last `/announce` by
/// `/scrape` and keeps everything before and after it; an URL without
/// `/announce` has no scrape URL.
pub proof fn law_scrape_url(a: Seq<char>, b: Seq<char>, url: Seq<char>)
    ensures
        (forall|m: int| !occurs_at(b, "/announce"@, m)) ==> scrape_url_spec(a + "/announce"@ + b)
            == Ok::<Seq<char>, ScrapeFailure>(a + "/scrape"@ + b),
        (forall|m: int| !occurs_at(url, "/announce"@, m)) ==> scrape_url_spec(url) == Err::<
            Seq<char>,
            ScrapeFailure,
        >(ScrapeFailure::InvalidAnnounceUrl(url)),
{
    reveal_strlit("/announce");
    let pat = "/announce"@;
    lemma_rfind_from(url, pat, url.len() - pat.len());
    if forall|m: int| !occurs_at(b, pat, m) {
        let s = a + pat + b;
        let n = a.len() as int;
        assert(s.subrange(n, n + 9) =~= pat);
        assert forall|m: int| n < m <= s.len() - 9 implies !occurs_at(s, pat, m) by {
            if occurs_at(s, pat, m) {
                if m < n + 9 {
                    assert(s.subrange(m, m + 9)[0] == s[m]);
                    assert(s[m] == pat[m - n]);
                } else {
                    assert(s.subrange(m, m + 9) =~= b.subrange(m - n - 9, m - n));
                    assert(occurs_at(b, pat, m - n - 9));
                }
            }
        }
        lemma_rfind_skips(s, pat, n, s.len() - 9);
        assert(s.take(n) =~= a);
        assert(s.skip(n + 9) =~= b);
    }
}

} // verus!
