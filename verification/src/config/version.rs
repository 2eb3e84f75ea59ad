//! Version checking against the project's releases.
//!
//! Provides version comparison logic. The HTTP fetch of release data is
//! left to the caller; this module reads the release's JSON.
use vstd::prelude::*;
use vstd::utf8::encode_utf8;

use crate::strings::{
    char_lines_view, chars_range, lemma_decimal_text, lemma_split_first, lemma_split_once, split_char, split_on, str_chars,
    string_from_chars,
};
use crate::text::{ascii_chars, decimal, parse_unsigned, parse_unsigned_bytes};

verus! {

/// Current application version.
pub const CURRENT_VERSION: &'static str = "0.1.0";

/// GitHub releases API URL for this project.
pub const RELEASES_URL: &'static str = "https://api.github.com/repos/xbattlax/ratiomaster-rs/releases/latest";

/// The string under `tag_name` in a JSON document, when the text parses as
/// JSON, is an object and has that field as a string.
pub uninterp spec fn json_tag_name(body: Seq<char>) -> Option<Seq<char>>;

/// `serde_json::from_str::<Value>`, then `Value::get("tag_name")` and
/// `Value::as_str`: the `tag_name` string of a JSON document. The contract
/// names the result and claims nothing more of it.
#[verifier::external_body]
fn tag_name_of(json_body: &str) -> (r: Option<String>)
    ensures
        match r {
            Some(t) => json_tag_name(json_body@) == Some(t@),
            None => json_tag_name(json_body@) is None,
        },
{
    match serde_json::from_str::<serde_json::Value>(json_body) {
        Ok(value) => match value.get("tag_name") {
            Some(tag) => tag.as_str().map(String::from),
            None => None,
        },
        Err(_) => None,
    }
}

/// A release tag without its leading `v`, if any.
pub open spec fn strip_v(tag: Seq<char>) -> Seq<char> {
    if tag.len() > 0 && tag[0] == 'v' {
        tag.skip(1)
    } else {
        tag
    }
}

/// The version named by a release tag: the tag without a leading `v`.
pub fn version_from_tag(tag: &str) -> (r: String)
    ensures
        r@ == strip_v(tag@),
{
    let c = str_chars(tag);
    if c.len() > 0 && c[0] == 'v' {
        let rest = chars_range(c.as_slice(), 1, c.len());
        assert(rest@ =~= tag@.skip(1));
        string_from_chars(rest.as_slice())
    } else {
        String::from_str(tag)
    }
}

/// Parses the latest version tag from a GitHub releases API JSON response.
///
/// Expects the response to contain a `"tag_name"` field like `"v0.2.0"`.
pub fn parse_latest_version(json_body: &str) -> (r: Option<String>)
    ensures
        match json_tag_name(json_body@) {
            Some(t) => r matches Some(v) && v@ == strip_v(t),
            None => r is None,
        },
{
    match tag_name_of(json_body) {
        Some(tag) => Some(version_from_tag(tag.as_str())),
        None => None,
    }
}

/// A decimal `u32`, as `u32::from_str` reads it.
pub open spec fn parse_u32(s: Seq<char>) -> Option<u32> {
    match parse_unsigned(encode_utf8(s), u32::MAX as nat) {
        Some(v) => Some(v as u32),
        None => None,
    }
}

/// A version `major.minor[.patch]`: the first two dot-separated parts must
/// be numbers; a third that is not one counts as 0.
pub open spec fn semver_spec(version: Seq<char>) -> Option<(u32, u32, u32)> {
    let parts = split_on(version, '.');
    if parts.len() < 2 {
        None
    } else {
        match (parse_u32(parts[0]), parse_u32(parts[1])) {
            (Some(major), Some(minor)) => Some(
                (
                    major,
                    minor,
                    if parts.len() > 2 {
                        match parse_u32(parts[2]) {
                            Some(p) => p,
                            None => 0,
                        }
                    } else {
                        0
                    },
                ),
            ),
            _ => None,
        }
    }
}

/// `a` comes after `b` in the lexicographic order of version triples.
pub open spec fn triple_gt(a: (u32, u32, u32), b: (u32, u32, u32)) -> bool {
    a.0 > b.0 || (a.0 == b.0 && (a.1 > b.1 || (a.1 == b.1 && a.2 > b.2)))
}

/// `latest` is newer than `current`: both parse, and latest's triple is
/// greater.
pub open spec fn newer_spec(current: Seq<char>, latest: Seq<char>) -> bool {
    match (semver_spec(current), semver_spec(latest)) {
        (Some(c), Some(l)) => triple_gt(l, c),
        _ => false,
    }
}

fn parse_u32_chars(s: &[char]) -> (r: Option<u32>)
    ensures
        r == parse_u32(s@),
{
    let text = string_from_chars(s);
    match parse_unsigned_bytes(text.as_str().as_bytes(), 4294967295u64) {
        Some(v) => Some(v as u32),
        None => None,
    }
}

/// Parses a version string like "1.2.3" into (major, minor, patch).
pub fn parse_semver(version: &str) -> (r: Option<(u32, u32, u32)>)
    ensures
        r == semver_spec(version@),
{
    let c = str_chars(version);
    let parts = split_char(c.as_slice(), '.');
    if parts.len() < 2 {
        return None;
    }
    assert(char_lines_view(parts@)[0] == parts@[0]@);
    assert(char_lines_view(parts@)[1] == parts@[1]@);
    let major = match parse_u32_chars(parts[0].as_slice()) {
        Some(v) => v,
        None => {
            return None;
        },
    };
    let minor = match parse_u32_chars(parts[1].as_slice()) {
        Some(v) => v,
        None => {
            return None;
        },
    };
    let patch = if parts.len() > 2 {
        assert(char_lines_view(parts@)[2] == parts@[2]@);
        match parse_u32_chars(parts[2].as_slice()) {
            Some(p) => p,
            None => 0,
        }
    } else {
        0
    };
    Some((major, minor, patch))
}

/// Compares two version strings.
///
/// Returns `true` if `latest` is newer than `current`.
pub fn is_newer(current: &str, latest: &str) -> (r: bool)
    ensures
        r == newer_spec(current@, latest@),
{
    match (parse_semver(current), parse_semver(latest)) {
        (Some(c), Some(l)) => l.0 > c.0 || (l.0 == c.0 && (l.1 > c.1 || (l.1 == c.1 && l.2 > c.2))),
        _ => false,
    }
}

/// Checks if an update is available given a GitHub API response body.
///
/// Returns `Some(version)` if a newer version exists.
pub fn check_update(json_body: &str) -> (r: Option<String>)
    ensures
        match json_tag_name(json_body@) {
            Some(t) => if newer_spec(CURRENT_VERSION@, strip_v(t)) {
                r matches Some(v) && v@ == strip_v(t)
            } else {
                r is None
            },
            None => r is None,
        },
{
    match parse_latest_version(json_body) {
        Some(latest) => {
            if is_newer(CURRENT_VERSION, latest.as_str()) {
                Some(latest)
            } else {
                None
            }
        },
        None => None,
    }
}

/// "Newer" is a strict order on versions: no version is newer than itself,
/// of two versions at most one is newer than the other, and a version newer
/// than one that is newer than a third is newer than the third.
pub proof fn law_newer_is_strict(a: Seq<char>, b: Seq<char>, c: Seq<char>)
    ensures
        !newer_spec(a, a),
        newer_spec(a, b) ==> !newer_spec(b, a),
        newer_spec(a, b) && newer_spec(b, c) ==> newer_spec(a, c),
{
}

/// The decimal text of a number.
pub open spec fn number_text(n: u32) -> Seq<char> {
    ascii_chars(decimal(n as nat))
}

/// A version written `MAJOR.MINOR.PATCH` or `MAJOR.MINOR` reads back as
/// those numbers (patch 0 when left out).
pub proof fn law_semver_parts(major: u32, minor: u32, patch: u32)
    ensures
        semver_spec(number_text(major) + "."@ + number_text(minor) + "."@ + number_text(patch)) == Some(
            (major, minor, patch),
        ),
        semver_spec(number_text(major) + "."@ + number_text(minor)) == Some((major, minor, 0u32)),
{
    reveal_strlit(".");
    let (a, b, c) = (number_text(major), number_text(minor), number_text(patch));
    lemma_decimal_text(major as nat, u32::MAX as nat);
    lemma_decimal_text(minor as nat, u32::MAX as nat);
    lemma_decimal_text(patch as nat, u32::MAX as nat);
    lemma_split_once(b, c, '.');
    lemma_split_first(a, b + seq!['.'] + c, '.');
    assert(a + "."@ + b + "."@ + c =~= a + seq!['.'] + (b + seq!['.'] + c));
    assert(seq![a] + seq![b, c] =~= seq![a, b, c]);
    lemma_split_once(a, b, '.');
    assert(a + "."@ + b =~= a + seq!['.'] + b);
}

/// Versions are ordered by major number first, then minor, then patch: a
/// release is newer exactly when its version is greater in that order, and
/// a version that does not parse is never newer nor older.
pub proof fn law_version_order(current: Seq<char>, latest: Seq<char>)
    ensures
        semver_spec(current) is None || semver_spec(latest) is None ==> !newer_spec(current, latest),
        semver_spec(current) is Some && semver_spec(latest) is Some ==> {
            let c = semver_spec(current).unwrap();
            let l = semver_spec(latest).unwrap();
            &&& l.0 > c.0 ==> newer_spec(current, latest)
            &&& l.0 < c.0 ==> !newer_spec(current, latest)
            &&& l.0 == c.0 && l.1 > c.1 ==> newer_spec(current, latest)
            &&& l.0 == c.0 && l.1 < c.1 ==> !newer_spec(current, latest)
            &&& l.0 == c.0 && l.1 == c.1 ==> (newer_spec(current, latest) <==> l.2 > c.2)
        },
{
}

} // verus!
