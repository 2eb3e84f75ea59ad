//! Saved sessions: what is kept of a torrent's session across restarts, and
//! the name of the file it is kept in.
use std::collections::hash_map::DefaultHasher;
use std::hash::{Hash, Hasher};
use vstd::prelude::*;

use crate::text::{hex_digit_lower, push_char};

verus! {

/// Saved session state for a single torrent.
#[derive(Debug, Clone)]
pub struct Session {
    /// Path to the .torrent file.
    pub torrent_path: String,
    /// Bytes reported as uploaded.
    pub uploaded: u64,
    /// Bytes reported as downloaded.
    pub downloaded: u64,
    /// Bytes remaining.
    pub left: u64,
    /// Client profile name.
    pub client_name: String,
    /// Port reported to tracker.
    pub port: u16,
    /// Upload speed in KB/s.
    pub upload_speed: u64,
    /// Download speed in KB/s.
    pub download_speed: u64,
    /// Announce interval in seconds.
    pub interval: u64,
    /// Whether TCP listener was enabled.
    pub tcp_listener: bool,
    /// Whether scrape was enabled.
    pub scrape_enabled: bool,
    /// Tracker URL override, if any.
    pub tracker_override: Option<String>,
}

/// The hash of a path by `std`'s `DefaultHasher`: `DefaultHasher::new`,
/// `Hash::hash` of the `str`, `Hasher::finish`. std documents every
/// `DefaultHasher` made by `new` to be the same (it is not seeded per
/// process), so the hash depends on the path alone; which value it is, std
/// does not specify, and it may differ between Rust releases.
pub uninterp spec fn default_hash(path: Seq<char>) -> u64;

/// The path's hash with `DefaultHasher` (see [`default_hash`]).
#[verifier::external_body]
fn path_hash(path: &str) -> (r: u64)
    ensures
        r == default_hash(path@),
{
    let mut hasher = DefaultHasher::new();
    path.hash(&mut hasher);
    hasher.finish()
}

/// The sixteen lowercase hexadecimal digits of `h`, most significant first.
pub open spec fn hex16(h: u64) -> Seq<char> {
    Seq::new(16, |i: int| hex_digit_lower(((h as nat) / pow16((15 - i) as nat)) % 16) as char)
}

/// 16 to the power `e`.
pub open spec fn pow16(e: nat) -> nat
    decreases e,
{
    if e == 0 {
        1
    } else {
        16 * pow16((e - 1) as nat)
    }
}

/// The file name of a session whose path hashes to `h`: the hash in
/// sixteen hexadecimal digits, and `.json`.
pub fn session_filename_for_hash(h: u64) -> (r: String)
    ensures
        r@ == hex16(h) + ".json"@,
{
    let mut digits = [0u8; 16];
    let mut v: u64 = h;
    let mut j: usize = 0;
    let ghost mut p: nat = 1;
    while j < 16
        invariant
            j <= 16,
            p == pow16(j as nat),
            p >= 1,
            v == (h as nat) / p,
            forall|m: int| 0 <= m < j ==> #[trigger] digits@[15 - m] == ((h as nat) / pow16(m as nat)) % 16,
            digits@.len() == 16,
        decreases 16 - j,
    {
        digits[15 - j] = (v % 16) as u8;
        proof {
            vstd::arithmetic::div_mod::lemma_div_denominator(h as int, p as int, 16);
            assert(p * 16 == pow16((j + 1) as nat));
            p = p * 16;
        }
        v = v / 16;
        j += 1;
    }
    let mut s = String::new();
    let mut i: usize = 0;
    while i < 16
        invariant
            i <= 16,
            digits@.len() == 16,
            forall|m: int| 0 <= m < 16 ==> #[trigger] digits@[15 - m] == ((h as nat) / pow16(m as nat)) % 16,
            s@ == hex16(h).take(i as int),
        decreases 16 - i,
    {
        let ghost m: int = 15 - i;
        assert(digits@[15 - m] == ((h as nat) / pow16(m as nat)) % 16);
        push_char(&mut s, crate::text::hex_lower(digits[i]) as char);
        i += 1;
        assert(s@ =~= hex16(h).take(i as int));
    }
    assert(hex16(h).take(16) =~= hex16(h));
    s.append(".json");
    s
}

/// Generates a filename from a torrent path by hashing it: sixteen
/// hexadecimal digits of the path's hash, and `.json`.
pub fn session_filename(torrent_path: &str) -> (r: String)
    ensures
        r@ == hex16(default_hash(torrent_path@)) + ".json"@,
{
    let h = path_hash(torrent_path);
    session_filename_for_hash(h)
}

/// Returns the sessions directory, `sessions` in the configuration
/// directory.
pub fn sessions_dir() -> (r: String)
    ensures
        super::in_config_dir("sessions"@, r@),
{
    let dir = super::config_dir();
    proof {
        reveal_strlit("sessions");
    }
    super::in_dir(&dir, "sessions")
}

} // verus!
