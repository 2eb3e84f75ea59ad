//! Percent-encoding of binary data (info hashes, peer ids) for tracker URLs.
use vstd::prelude::*;

use crate::text::{hex_digit_lower, hex_digit_upper, hex_lower, hex_upper, push_char};

verus! {

/// An unreserved character of RFC 3986: `A-Z`, `a-z`, `0-9`, `-`, `_`, `.`, `~`.
pub open spec fn unreserved(b: u8) -> bool {
    (48 <= b <= 57) || (65 <= b <= 90) || (97 <= b <= 122) || b == 45 || b == 95 || b == 46
        || b == 126
}

/// A hexadecimal digit of a value below 16, in the chosen case.
pub open spec fn hex_digit(d: nat, uppercase: bool) -> u8 {
    if uppercase {
        hex_digit_upper(d)
    } else {
        hex_digit_lower(d)
    }
}

/// The encoding of one byte: itself when unreserved, else `%XX`.
pub open spec fn encode_byte(b: u8, uppercase: bool) -> Seq<char> {
    if unreserved(b) {
        seq![b as char]
    } else {
        seq![
            '%',
            hex_digit((b / 16) as nat, uppercase) as char,
            hex_digit((b % 16) as nat, uppercase) as char,
        ]
    }
}

/// The percent-encoding of a byte string, byte by byte.
pub open spec fn url_encoded(bytes: Seq<u8>, uppercase: bool) -> Seq<char>
    decreases bytes.len(),
{
    if bytes.len() == 0 {
        Seq::empty()
    } else {
        url_encoded(bytes.drop_last(), uppercase) + encode_byte(bytes.last(), uppercase)
    }
}

/// Returns `true` if the byte is an unreserved character per RFC 3986.
///
/// Unreserved characters are: `A-Z`, `a-z`, `0-9`, `-`, `_`, `.`, `~`
pub fn is_unreserved(byte: u8) -> (r: bool)
    ensures
        r == unreserved(byte),
{
    (48 <= byte && byte <= 57) || (65 <= byte && byte <= 90) || (97 <= byte && byte <= 122)
        || byte == 45 || byte == 95 || byte == 46 || byte == 126
}

/// URL-encodes a byte slice using percent-encoding.
///
/// Bytes that are unreserved (alphanumeric plus `-`, `_`, `.`, `~`) pass through
/// unencoded. All other bytes are encoded as `%XX` where `XX` is the
/// hexadecimal value of the byte, in upper case when `uppercase` is set and
/// in lower case otherwise.
pub fn url_encode(bytes: &[u8], uppercase: bool) -> (r: String)
    ensures
        r@ == url_encoded(bytes@, uppercase),
{
    let mut result = String::new();
    let mut i: usize = 0;
    while i < bytes.len()
        invariant
            i <= bytes.len(),
            result@ == url_encoded(bytes@.take(i as int), uppercase),
        decreases bytes.len() - i,
    {
        let byte = bytes[i];
        let ghost before = result@;
        assert(bytes@.take(i + 1).drop_last() =~= bytes@.take(i as int));
        if is_unreserved(byte) {
            push_char(&mut result, byte as char);
        } else {
            push_char(&mut result, '%');
            let hi = if uppercase {
                hex_upper(byte / 16)
            } else {
                hex_lower(byte / 16)
            };
            let lo = if uppercase {
                hex_upper(byte % 16)
            } else {
                hex_lower(byte % 16)
            };
            push_char(&mut result, hi as char);
            push_char(&mut result, lo as char);
        }
        assert(result@ =~= before + encode_byte(byte, uppercase));
        i += 1;
    }
    assert(bytes@.take(bytes.len() as int) =~= bytes@);
    result
}

/// The characters that can appear in a percent-encoding: unreserved ones,
/// `%`, and hexadecimal digits.
pub open spec fn url_safe_char(c: char) -> bool {
    ||| (c as u32) < 256 && unreserved(c as u32 as u8)
    ||| c == '%'
}

/// Every character of a percent-encoding is unreserved or `%`, and the
/// encoding is at least as long as the input and at most three times as long.
pub proof fn law_url_encoded_shape(bytes: Seq<u8>, uppercase: bool)
    ensures
        forall|i: int|
            0 <= i < url_encoded(bytes, uppercase).len() ==> url_safe_char(
                #[trigger] url_encoded(bytes, uppercase)[i],
            ),
        bytes.len() <= url_encoded(bytes, uppercase).len() <= 3 * bytes.len(),
    decreases bytes.len(),
{
    if bytes.len() > 0 {
        let b = bytes.last();
        law_url_encoded_shape(bytes.drop_last(), uppercase);
        let prev = url_encoded(bytes.drop_last(), uppercase);
        let e = encode_byte(b, uppercase);
        assert forall|i: int| 0 <= i < e.len() implies url_safe_char(#[trigger] e[i]) by {
            if !unreserved(b) && i > 0 {
                let d: nat = if i == 1 { (b / 16) as nat } else { (b % 16) as nat };
                assert(e[i] == hex_digit(d, uppercase) as char);
                assert(d < 16);
            }
        }
        assert forall|i: int|
            0 <= i < url_encoded(bytes, uppercase).len() implies url_safe_char(
                #[trigger] url_encoded(bytes, uppercase)[i],
            ) by {
            if i < prev.len() {
                assert(url_encoded(bytes, uppercase)[i] == prev[i]);
            } else {
                assert(url_encoded(bytes, uppercase)[i] == e[i - prev.len()]);
            }
        }
    }
}

/// Bytes that are all unreserved are passed through unchanged: their
/// encoding is the bytes themselves, as characters.
pub proof fn law_unreserved_passthrough(bytes: Seq<u8>, uppercase: bool)
    requires
        forall|i: int| 0 <= i < bytes.len() ==> unreserved(#[trigger] bytes[i]),
    ensures
        url_encoded(bytes, uppercase) == bytes.map_values(|b: u8| b as char),
    decreases bytes.len(),
{
    if bytes.len() > 0 {
        let init = bytes.drop_last();
        assert forall|i: int| 0 <= i < init.len() implies unreserved(#[trigger] init[i]) by {
            assert(init[i] == bytes[i]);
        }
        law_unreserved_passthrough(init, uppercase);
        assert(unreserved(bytes[bytes.len() - 1]));
        assert(bytes.map_values(|b: u8| b as char) =~= init.map_values(|b: u8| b as char) + seq![
            bytes.last() as char,
        ]);
    } else {
        assert(bytes.map_values(|b: u8| b as char) =~= Seq::<char>::empty());
    }
}

/// The value of a hexadecimal digit of either case, or -1 for any other
/// character.
pub open spec fn hex_value(c: char) -> int {
    if '0' <= c && c <= '9' {
        c as int - 48
    } else if 'a' <= c && c <= 'f' {
        c as int - 87
    } else if 'A' <= c && c <= 'F' {
        c as int - 55
    } else {
        -1
    }
}

/// Percent-decoding: `%` and two hexadecimal digits of either case give the
/// byte they write; any other character gives its own code as a byte.
pub open spec fn percent_decoded(s: Seq<char>) -> Seq<u8>
    decreases s.len(),
{
    if s.len() == 0 {
        Seq::empty()
    } else if s[0] == '%' && s.len() >= 3 && hex_value(s[1]) >= 0 && hex_value(s[2]) >= 0 {
        seq![(hex_value(s[1]) * 16 + hex_value(s[2])) as u8] + percent_decoded(s.skip(3))
    } else {
        seq![s[0] as u8] + percent_decoded(s.skip(1))
    }
}

/// The ASCII lowercase of a character.
pub open spec fn ascii_lower_char(c: char) -> char {
    if 'A' <= c && c <= 'Z' {
        ((c as u32) + 32) as char
    } else {
        c
    }
}

proof fn lemma_hex_digit_value(d: nat, uppercase: bool)
    requires
        d < 16,
    ensures
        hex_value(hex_digit(d, uppercase) as char) == d,
        ascii_lower_char(hex_digit(d, true) as char) == hex_digit(d, false) as char,
{
}

/// The encoding of a byte string is the encoding of its first byte followed
/// by that of the rest.
proof fn lemma_url_encoded_first(bytes: Seq<u8>, uppercase: bool)
    requires
        bytes.len() > 0,
    ensures
        url_encoded(bytes, uppercase) == encode_byte(bytes[0], uppercase) + url_encoded(
            bytes.drop_first(),
            uppercase,
        ),
    decreases bytes.len(),
{
    if bytes.len() == 1 {
        assert(bytes.drop_last() =~= Seq::<u8>::empty());
        assert(bytes.drop_first() =~= Seq::<u8>::empty());
        assert(url_encoded(bytes.drop_last(), uppercase) =~= Seq::<char>::empty());
        assert(bytes.last() == bytes[0]);
        assert(url_encoded(bytes, uppercase) =~= encode_byte(bytes[0], uppercase));
        assert(encode_byte(bytes[0], uppercase) + url_encoded(bytes.drop_first(), uppercase)
            =~= encode_byte(bytes[0], uppercase));
    } else {
        let init = bytes.drop_last();
        lemma_url_encoded_first(init, uppercase);
        assert(init.drop_first() =~= bytes.drop_first().drop_last());
        assert(bytes.drop_first().last() == bytes.last());
        assert(init[0] == bytes[0]);
        assert(url_encoded(bytes, uppercase) =~= encode_byte(bytes[0], uppercase) + url_encoded(
            bytes.drop_first(),
            uppercase,
        ));
    }
}

/// Percent-decoding gives back the bytes that were encoded, whichever case
/// the hexadecimal digits were written in.
pub proof fn law_percent_decoding_inverts(bytes: Seq<u8>, uppercase: bool)
    ensures
        percent_decoded(url_encoded(bytes, uppercase)) == bytes,
    decreases bytes.len(),
{
    if bytes.len() == 0 {
        assert(url_encoded(bytes, uppercase) =~= Seq::<char>::empty());
    } else {
        let x = bytes[0];
        let rest = bytes.drop_first();
        lemma_url_encoded_first(bytes, uppercase);
        law_percent_decoding_inverts(rest, uppercase);
        let e = encode_byte(x, uppercase);
        let s = url_encoded(bytes, uppercase);
        assert(s == e + url_encoded(rest, uppercase));
        if unreserved(x) {
            assert(s[0] == x as char);
            assert(s.skip(1) =~= url_encoded(rest, uppercase));
            assert((x as char) as u8 == x);
        } else {
            lemma_hex_digit_value((x / 16) as nat, uppercase);
            lemma_hex_digit_value((x % 16) as nat, uppercase);
            assert(s[0] == '%');
            assert(s[1] == hex_digit((x / 16) as nat, uppercase) as char);
            assert(s[2] == hex_digit((x % 16) as nat, uppercase) as char);
            assert(s.skip(3) =~= url_encoded(rest, uppercase));
            assert((x / 16) * 16 + x % 16 == x);
        }
        assert(seq![x] + rest =~= bytes);
    }
}

/// The upper- and lowercase encodings of a byte string differ only in case.
pub proof fn law_encodings_differ_in_case(bytes: Seq<u8>)
    ensures
        url_encoded(bytes, true).len() == url_encoded(bytes, false).len(),
        forall|i: int|
            0 <= i < url_encoded(bytes, true).len() ==> ascii_lower_char(
                #[trigger] url_encoded(bytes, true)[i],
            ) == ascii_lower_char(url_encoded(bytes, false)[i]),
    decreases bytes.len(),
{
    if bytes.len() > 0 {
        let b = bytes.last();
        law_encodings_differ_in_case(bytes.drop_last());
        let pu = url_encoded(bytes.drop_last(), true);
        let pl = url_encoded(bytes.drop_last(), false);
        let eu = encode_byte(b, true);
        let el = encode_byte(b, false);
        lemma_hex_digit_value((b / 16) as nat, true);
        lemma_hex_digit_value((b % 16) as nat, true);
        assert forall|i: int| 0 <= i < eu.len() implies ascii_lower_char(#[trigger] eu[i])
            == ascii_lower_char(el[i]) by {
            if !unreserved(b) && i == 1 {
                assert(ascii_lower_char(hex_digit((b / 16) as nat, false) as char) == hex_digit(
                    (b / 16) as nat,
                    false,
                ) as char);
            }
            if !unreserved(b) && i == 2 {
                assert(ascii_lower_char(hex_digit((b % 16) as nat, false) as char) == hex_digit(
                    (b % 16) as nat,
                    false,
                ) as char);
            }
        }
        assert forall|i: int|
            0 <= i < url_encoded(bytes, true).len() implies ascii_lower_char(
                #[trigger] url_encoded(bytes, true)[i],
            ) == ascii_lower_char(url_encoded(bytes, false)[i]) by {
            if i < pu.len() {
                assert(url_encoded(bytes, true)[i] == pu[i]);
                assert(url_encoded(bytes, false)[i] == pl[i]);
            } else {
                assert(url_encoded(bytes, true)[i] == eu[i - pu.len()]);
                assert(url_encoded(bytes, false)[i] == el[i - pu.len()]);
            }
        }
    }
}

} // verus!
