//! Peer ID and session key generation for client emulation.
//!
//! Generates 20-byte peer IDs and session keys matching the format of each
//! emulated BitTorrent client. The random draws come from `rand`'s
//! thread-local generator; what is built from them is verified here for
//! every value they may take.
use rand::rngs::ThreadRng;
use rand::Rng;
use vstd::prelude::*;

use super::{ClientProfile, KeyFormat, RandomType};
use crate::encoding::url::{url_encode, url_encoded};
use crate::text::{hex_val, push_char};

verus! {

broadcast use vstd::std_specs::vec::group_vec_axioms;

/// `rand`'s thread-local random generator.
#[verifier::external_type_specification]
#[verifier::external_body]
pub struct ExThreadRng(ThreadRng);

/// `rand::thread_rng`: a handle to the thread-local generator.
#[verifier::external_body]
pub(crate) fn thread_rng() -> ThreadRng {
    rand::thread_rng()
}

/// `Rng::gen_range` over `low..=high`: some value in that range. The range
/// must not be empty (the call panics on an empty one).
#[verifier::external_body]
pub(crate) fn gen_range_inclusive(rng: &mut ThreadRng, low: u64, high: u64) -> (r: u64)
    requires
        low <= high,
    ensures
        low <= r <= high,
{
    rng.gen_range(low..=high)
}

/// `Rng::gen::<u8>`: some byte.
#[verifier::external_body]
fn gen_byte(rng: &mut ThreadRng) -> u8 {
    rng.gen::<u8>()
}

// ---------------------------------------------------------------------------
// Character sets
// ---------------------------------------------------------------------------

/// `a-z`, then `A-Z`, then `0-9`: the 62 alphanumeric characters.
pub open spec fn alphanumeric_at(i: nat) -> u8 {
    if i < 26 {
        (97 + i) as u8
    } else if i < 52 {
        (65 + i - 26) as u8
    } else {
        (48 + i - 52) as u8
    }
}

/// `A-Z`, then `0-9`: the 36 uppercase alphanumeric characters.
pub open spec fn upper_alphanumeric_at(i: nat) -> u8 {
    if i < 26 {
        (65 + i) as u8
    } else {
        (48 + i - 26) as u8
    }
}

/// The `i`-th hexadecimal digit, in the chosen case.
pub open spec fn hex_at(i: nat, uppercase: bool) -> u8 {
    if i < 10 {
        (48 + i) as u8
    } else if uppercase {
        (55 + i) as u8
    } else {
        (87 + i) as u8
    }
}

/// An ASCII letter or digit.
pub open spec fn is_alphanumeric(b: u8) -> bool {
    (48 <= b <= 57) || (65 <= b <= 90) || (97 <= b <= 122)
}

/// A hexadecimal digit of the chosen case.
pub open spec fn is_hex_digit(b: u8, uppercase: bool) -> bool {
    (48 <= b <= 57) || (uppercase && 65 <= b <= 70) || (!uppercase && 97 <= b <= 102)
}

/// The bytes the random part of a peer ID may hold.
pub open spec fn in_random_set(b: u8, t: RandomType) -> bool {
    match t {
        RandomType::Alphanumeric => is_alphanumeric(b),
        RandomType::Numeric => 48 <= b <= 57,
        RandomType::Random => true,
        RandomType::Hex => is_hex_digit(b, true),
    }
}

/// The characters a session key of this format may hold.
pub open spec fn in_key_set(c: char, f: KeyFormat, uppercase: bool) -> bool {
    match f {
        KeyFormat::Numeric(_) => '0' <= c <= '9',
        KeyFormat::Alphanumeric(_) => if uppercase {
            ('A' <= c <= 'Z') || ('0' <= c <= '9')
        } else {
            ('a' <= c <= 'z') || ('A' <= c <= 'Z') || ('0' <= c <= '9')
        },
        KeyFormat::Hex(_) => ('0' <= c <= '9') || (uppercase && 'A' <= c <= 'F') || (!uppercase
            && 'a' <= c <= 'f'),
    }
}

/// The length of a key of this format.
pub open spec fn key_length(f: KeyFormat) -> usize {
    match f {
        KeyFormat::Numeric(n) => n,
        KeyFormat::Alphanumeric(n) => n,
        KeyFormat::Hex(n) => n,
    }
}

/// The length of the fixed part of a peer ID.
pub open spec fn prefix_len(prefix: Seq<u8>) -> int {
    if prefix.len() < 20 {
        prefix.len() as int
    } else {
        20
    }
}

// ---------------------------------------------------------------------------
// Verified construction from random draws
// ---------------------------------------------------------------------------

/// The alphanumeric character numbered `draw` (below 62).
pub fn alphanumeric_char(draw: u64) -> (r: u8)
    requires
        draw < 62,
    ensures
        r == alphanumeric_at(draw as nat),
        is_alphanumeric(r),
{
    if draw < 26 {
        97 + draw as u8
    } else if draw < 52 {
        65 + (draw - 26) as u8
    } else {
        48 + (draw - 52) as u8
    }
}

/// The uppercase alphanumeric character numbered `draw` (below 36).
pub fn upper_alphanumeric_char(draw: u64) -> (r: u8)
    requires
        draw < 36,
    ensures
        r == upper_alphanumeric_at(draw as nat),
{
    if draw < 26 {
        65 + draw as u8
    } else {
        48 + (draw - 26) as u8
    }
}

/// The hexadecimal digit numbered `draw` (below 16), in the chosen case.
pub fn hex_char(draw: u64, uppercase: bool) -> (r: u8)
    requires
        draw < 16,
    ensures
        r == hex_at(draw as nat, uppercase),
        is_hex_digit(r, uppercase),
{
    if draw < 10 {
        48 + draw as u8
    } else if uppercase {
        55 + draw as u8
    } else {
        87 + draw as u8
    }
}

/// Assembles a peer ID from a prefix and a random suffix: the first
/// `min(prefix.len(), 20)` bytes of the prefix, then the suffix.
pub fn assemble_peer_id(prefix: &[u8], suffix: &[u8]) -> (r: [u8; 20])
    requires
        suffix@.len() == 20 - prefix_len(prefix@),
    ensures
        r@ == prefix@.take(prefix_len(prefix@)) + suffix@,
{
    let mut peer_id = [0u8; 20];
    let p: usize = if prefix.len() < 20 {
        prefix.len()
    } else {
        20
    };
    let mut i: usize = 0;
    while i < 20
        invariant
            p == prefix_len(prefix@),
            p <= prefix@.len(),
            suffix@.len() == 20 - p,
            i <= 20,
            peer_id@.len() == 20,
            forall|j: int| 0 <= j < i ==> #[trigger] peer_id@[j] == (prefix@.take(p as int) + suffix@)[j],
        decreases 20 - i,
    {
        if i < p {
            peer_id[i] = prefix[i];
        } else {
            peer_id[i] = suffix[i - p];
        }
        i += 1;
    }
    assert(peer_id@ =~= prefix@.take(p as int) + suffix@);
    peer_id
}

// ---------------------------------------------------------------------------
// Random generation
// ---------------------------------------------------------------------------

/// Generates random bytes of the specified type.
fn generate_random_bytes(rng: &mut ThreadRng, len: usize, random_type: RandomType) -> (r: Vec<u8>)
    ensures
        r@.len() == len,
        forall|i: int| 0 <= i < len ==> in_random_set(#[trigger] r@[i], random_type),
{
    let mut out: Vec<u8> = Vec::new();
    let mut i: usize = 0;
    while i < len
        invariant
            i <= len,
            out@.len() == i,
            forall|j: int| 0 <= j < i ==> in_random_set(#[trigger] out@[j], random_type),
        decreases len - i,
    {
        let b = match random_type {
            RandomType::Alphanumeric => alphanumeric_char(gen_range_inclusive(rng, 0, 61)),
            RandomType::Numeric => 48 + gen_range_inclusive(rng, 0, 9) as u8,
            RandomType::Random => gen_byte(rng),
            RandomType::Hex => hex_char(gen_range_inclusive(rng, 0, 15), true),
        };
        out.push(b);
        i += 1;
    }
    out
}

/// Generates a 20-byte peer ID based on the client profile.
///
/// The peer ID consists of the profile's fixed prefix (its first 20 bytes
/// at most) followed by random bytes generated according to the profile's
/// `peer_id_random_type`. The total is always exactly 20 bytes.
pub fn generate_peer_id(profile: &ClientProfile) -> (r: [u8; 20])
    ensures
        r@.take(prefix_len(profile.peer_id_prefix@)) == profile.peer_id_prefix@.take(
            prefix_len(profile.peer_id_prefix@),
        ),
        forall|i: int|
            prefix_len(profile.peer_id_prefix@) <= i < 20 ==> in_random_set(
                #[trigger] r@[i],
                profile.peer_id_random_type,
            ),
{
    let mut rng = thread_rng();
    let prefix = profile.peer_id_prefix.as_slice();
    let p: usize = if prefix.len() < 20 {
        prefix.len()
    } else {
        20
    };
    let suffix = generate_random_bytes(&mut rng, 20 - p, profile.peer_id_random_type);
    let r = assemble_peer_id(prefix, suffix.as_slice());
    assert(r@.take(p as int) =~= prefix@.take(p as int));
    assert forall|i: int| p <= i < 20 implies in_random_set(#[trigger] r@[i], profile.peer_id_random_type) by {
        assert(r@[i] == suffix@[i - p]);
    }
    r
}

/// Generates a session key string based on the client profile: as many
/// characters as the key format says, each from the format's set.
pub fn generate_key(profile: &ClientProfile) -> (r: String)
    ensures
        r@.len() == key_length(profile.key_format),
        forall|i: int|
            0 <= i < r@.len() ==> in_key_set(
                #[trigger] r@[i],
                profile.key_format,
                profile.key_uppercase,
            ),
{
    let mut rng = thread_rng();
    let format = profile.key_format;
    let upper = profile.key_uppercase;
    let len = match format {
        KeyFormat::Numeric(n) => n,
        KeyFormat::Alphanumeric(n) => n,
        KeyFormat::Hex(n) => n,
    };
    let mut key = String::new();
    let mut i: usize = 0;
    while i < len
        invariant
            i <= len == key_length(format),
            format == profile.key_format,
            upper == profile.key_uppercase,
            key@.len() == i,
            forall|j: int| 0 <= j < i ==> in_key_set(#[trigger] key@[j], format, upper),
        decreases len - i,
    {
        let b: u8 = match format {
            KeyFormat::Numeric(_) => 48 + gen_range_inclusive(&mut rng, 0, 9) as u8,
            KeyFormat::Alphanumeric(_) => if upper {
                upper_alphanumeric_char(gen_range_inclusive(&mut rng, 0, 35))
            } else {
                alphanumeric_char(gen_range_inclusive(&mut rng, 0, 61))
            },
            KeyFormat::Hex(_) => hex_char(gen_range_inclusive(&mut rng, 0, 15), upper),
        };
        let ghost before = key@;
        push_char(&mut key, b as char);
        assert(key@[i as int] == b as char);
        assert forall|j: int| 0 <= j < i + 1 implies in_key_set(#[trigger] key@[j], format, upper) by {
            if j < i {
                assert(key@[j] == before[j]);
            }
        }
        i += 1;
    }
    key
}

/// URL-encodes a peer ID, encoding non-unreserved bytes as `%XX`.
///
/// Used when `peer_id_url_encode` is true in the profile to produce the
/// percent-encoded form for tracker query strings.
pub fn url_encode_peer_id(peer_id: &[u8; 20], uppercase: bool) -> (r: String)
    ensures
        r@ == url_encoded(peer_id@, uppercase),
{
    url_encode(peer_id.as_slice(), uppercase)
}

/// The random part of a peer ID draws from the set its type names:
/// letters and digits, digits, any byte, or uppercase hexadecimal digits.
pub proof fn law_random_sets(b: u8)
    ensures
        in_random_set(b, RandomType::Alphanumeric) <==> (48 <= b <= 57 || 65 <= b <= 90 || 97 <= b
            <= 122),
        in_random_set(b, RandomType::Numeric) <==> 48 <= b <= 57,
        in_random_set(b, RandomType::Random),
        in_random_set(b, RandomType::Hex) <==> (48 <= b <= 57 || 65 <= b <= 70),
{
}

/// A key draws from the set its format names: digits; letters and digits
/// (uppercase letters only when keys are uppercase); or hexadecimal digits
/// in the key's case. Its length is the one the format gives.
pub proof fn law_key_sets(c: char, n: usize, uppercase: bool)
    ensures
        in_key_set(c, KeyFormat::Numeric(n), uppercase) <==> '0' <= c <= '9',
        in_key_set(c, KeyFormat::Alphanumeric(n), uppercase) <==> ('0' <= c <= '9' || 'A' <= c <= 'Z'
            || (!uppercase && 'a' <= c <= 'z')),
        in_key_set(c, KeyFormat::Hex(n), uppercase) <==> ('0' <= c <= '9' || (uppercase && 'A' <= c
            <= 'F') || (!uppercase && 'a' <= c <= 'f')),
        key_length(KeyFormat::Numeric(n)) == n && key_length(KeyFormat::Alphanumeric(n)) == n
            && key_length(KeyFormat::Hex(n)) == n,
{
}

/// The draw tables list each character of their set once: the 62 letters
/// and digits, the 36 uppercase letters and digits, and the 16 hexadecimal
/// digits, each digit standing for its own value.
pub proof fn law_draw_tables(i: nat, j: nat, uppercase: bool)
    ensures
        i < 62 ==> is_alphanumeric(alphanumeric_at(i)),
        i < 62 && j < 62 && i != j ==> alphanumeric_at(i) != alphanumeric_at(j),
        i < 36 ==> is_alphanumeric(upper_alphanumeric_at(i)) && !(97 <= upper_alphanumeric_at(i)
            <= 122),
        i < 36 && j < 36 && i != j ==> upper_alphanumeric_at(i) != upper_alphanumeric_at(j),
        i < 16 ==> is_hex_digit(hex_at(i, uppercase), uppercase) && hex_val(hex_at(i, uppercase))
            == i,
{
}

} // verus!
