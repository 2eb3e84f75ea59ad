//! Chunked transfer decoding undoes chunked encoding.
use vstd::prelude::*;
use vstd::utf8::{decode_utf8, decode_utf8_encode_utf8, encode_utf8, valid_utf8};

use super::http::{chunk_size_text, chunked_from, crlf};
use crate::strings::{index_of, lemma_index_of, trim, trim_end, trim_start, before_char, whitespace};
use crate::text::{
    all_hex, ascii_chars, find_bytes, hex_digit_lower, hex_val, hex_value, lemma_ascii_utf8,
    parse_hex_unsigned,
};

verus! {

/// The lowercase hexadecimal digits of `n`, without leading zeros.
pub open spec fn hex_text(n: nat) -> Seq<u8>
    decreases n,
{
    if n < 16 {
        seq![hex_digit_lower(n)]
    } else {
        hex_text(n / 16).push(hex_digit_lower(n % 16))
    }
}

/// The chunked transfer encoding of `parts`: each part as its size in
/// hexadecimal, CRLF, its bytes and CRLF; then the zero-size chunk `0`,
/// CRLF and the final CRLF.
pub open spec fn chunk_encoding(parts: Seq<Seq<u8>>) -> Seq<u8>
    decreases parts.len(),
{
    if parts.len() == 0 {
        seq![48u8] + crlf() + crlf()
    } else {
        hex_text(parts[0].len()) + crlf() + parts[0] + crlf() + chunk_encoding(parts.drop_first())
    }
}

/// The parts one after the other.
pub open spec fn concat_parts(parts: Seq<Seq<u8>>) -> Seq<u8>
    decreases parts.len(),
{
    if parts.len() == 0 {
        Seq::empty()
    } else {
        parts[0] + concat_parts(parts.drop_first())
    }
}

/// A lowercase hexadecimal digit.
pub open spec fn is_lower_hex(b: u8) -> bool {
    (48 <= b <= 57) || (97 <= b <= 102)
}

proof fn lemma_hex_text(n: nat)
    ensures
        hex_text(n).len() > 0,
        forall|i: int| 0 <= i < hex_text(n).len() ==> is_lower_hex(#[trigger] hex_text(n)[i]),
        hex_value(hex_text(n)) == n,
    decreases n,
{
    if n < 16 {
        let h = hex_text(n);
        assert(h.drop_last() =~= Seq::<u8>::empty());
        assert(hex_value(Seq::<u8>::empty()) == 0);
        assert(h.last() == hex_digit_lower(n));
        assert(hex_val(hex_digit_lower(n)) == n);
        assert(hex_value(h) == hex_value(h.drop_last()) * 16 + hex_val(h.last()) as nat);
    } else {
        lemma_hex_text(n / 16);
        let h = hex_text(n);
        let d = hex_digit_lower(n % 16);
        assert(h.drop_last() =~= hex_text(n / 16));
        assert(hex_val(d) == n % 16);
        assert forall|i: int| 0 <= i < h.len() implies is_lower_hex(#[trigger] h[i]) by {
            if i < h.len() - 1 {
                assert(h[i] == hex_text(n / 16)[i]);
            }
        }
        assert(h.last() == d);
        assert(hex_value(h) == hex_value(h.drop_last()) * 16 + hex_val(h.last()) as nat);
        assert((n / 16) * 16 + n % 16 == n);
    }
}

/// A size line of lowercase hexadecimal digits reads back as its value.
proof fn lemma_size_line(h: Seq<u8>)
    requires
        h.len() > 0,
        forall|i: int| 0 <= i < h.len() ==> is_lower_hex(#[trigger] h[i]),
        hex_value(h) <= usize::MAX,
    ensures
        valid_utf8(h),
        parse_hex_unsigned(encode_utf8(chunk_size_text(decode_utf8(h))), usize::MAX as nat)
            == Some(hex_value(h)),
{
    assert forall|i: int| 0 <= i < h.len() implies (#[trigger] h[i]) < 128u8 by {}
    lemma_ascii_utf8(h);
    let c = decode_utf8(h);
    assert(c == ascii_chars(h));
    assert forall|i: int| 0 <= i < c.len() implies !whitespace(#[trigger] c[i]) && c[i] != ';' by {
        assert(c[i] == h[i] as char);
        assert(is_lower_hex(h[i]));
    }
    assert(!whitespace(c[0]));
    assert(trim_start(c) == c);
    assert(!whitespace(c.last()));
    assert(trim_end(c) == c);
    assert(trim(c) == c);
    lemma_index_of(c, ';', 0);
    assert(index_of(c, ';', 0) is None);
    assert(before_char(c, ';') == c);
    assert(chunk_size_text(c) == c);
    decode_utf8_encode_utf8(h);
    assert(all_hex(h)) by {
        assert forall|i: int| 0 <= i < h.len() implies hex_val(#[trigger] h[i]) >= 0 by {
            assert(is_lower_hex(h[i]));
        }
    }
    assert(h[0] != 43u8 && h[0] != 45u8) by {
        assert(is_lower_hex(h[0]));
    }
}

/// The first CRLF at or after `from` is at `k` when none of the bytes
/// before `k` is a carriage return.
proof fn lemma_find_crlf(s: Seq<u8>, from: int, k: int)
    requires
        0 <= from <= k,
        k + 2 <= s.len(),
        s[k] == 13u8,
        s[k + 1] == 10u8,
        forall|j: int| from <= j < k ==> s[j] != 13u8,
    ensures
        find_bytes(s, crlf(), from) == Some(k),
    decreases k - from,
{
    if from < k {
        assert(s.subrange(from, from + 2)[0] == s[from]);
        lemma_find_crlf(s, from + 1, k);
    } else {
        assert(s.subrange(k, k + 2) =~= crlf());
    }
}

proof fn lemma_chunked_parts(data: Seq<u8>, pos: int, parts: Seq<Seq<u8>>)
    requires
        0 <= pos <= data.len(),
        forall|i: int| 0 <= i < parts.len() ==> (#[trigger] parts[i]).len() > 0 && parts[i].len()
            <= usize::MAX,
        data.subrange(pos, data.len() as int) == chunk_encoding(parts),
    ensures
        chunked_from(data, pos) == Ok::<Seq<u8>, super::http::HttpFailure>(concat_parts(parts)),
    decreases parts.len(),
{
    let enc = chunk_encoding(parts);
    assert forall|i: int| 0 <= i < enc.len() implies data[pos + i] == #[trigger] enc[i] by {
        assert(data.subrange(pos, data.len() as int)[i] == data[pos + i]);
    }
    if parts.len() == 0 {
        let h = seq![48u8];
        assert(enc == seq![48u8] + crlf() + crlf());
        assert(enc[0] == 48u8);
        assert(data[pos] == 48u8);
        assert(data[pos + 1] == 13u8 && data[pos + 2] == 10u8) by {
            assert(enc[1] == 13u8 && enc[2] == 10u8);
        }
        lemma_find_crlf(data, pos, pos + 1);
        assert(data.subrange(pos, pos + 1) =~= h);
        assert(hex_value(h) == 0) by {
            assert(h.drop_last() =~= Seq::<u8>::empty());
            assert(hex_value(Seq::<u8>::empty()) == 0);
            assert(hex_val(h.last()) == 0);
        }
        lemma_size_line(h);
    } else {
        let p0 = parts[0];
        let rest = parts.drop_first();
        let n = p0.len();
        lemma_hex_text(n);
        let h = hex_text(n);
        let rest_enc = chunk_encoding(rest);
        assert(enc == h + crlf() + p0 + crlf() + rest_enc);
        let hl = h.len() as int;
        assert forall|j: int| pos <= j < pos + hl implies data[j] != 13u8 by {
            assert(enc[j - pos] == h[j - pos]);
            assert(is_lower_hex(h[j - pos]));
        }
        assert(enc[hl] == 13u8 && enc[hl + 1] == 10u8);
        lemma_find_crlf(data, pos, pos + hl);
        assert(data.subrange(pos, pos + hl) =~= h) by {
            assert forall|j: int| 0 <= j < hl implies data.subrange(pos, pos + hl)[j] == h[j] by {
                assert(enc[j] == h[j]);
            }
        }
        lemma_size_line(h);
        let start = pos + hl + 2;
        assert(rest_enc.len() >= 5) by {
            if rest.len() == 0 {
            } else {
                lemma_hex_text(rest[0].len());
            }
        }
        assert(data.subrange(start, start + n) =~= p0) by {
            assert forall|j: int| 0 <= j < n implies data.subrange(start, start + n)[j] == p0[j] by {
                assert(enc[hl + 2 + j] == p0[j]);
            }
        }
        let next = start + n + 2;
        assert(data.subrange(next, data.len() as int) =~= rest_enc) by {
            assert forall|j: int| 0 <= j < rest_enc.len() implies data.subrange(
                next,
                data.len() as int,
            )[j] == rest_enc[j] by {
                assert(enc[hl + 2 + n + 2 + j] == rest_enc[j]);
            }
        }
        assert forall|i: int| 0 <= i < rest.len() implies (#[trigger] rest[i]).len() > 0
            && rest[i].len() <= usize::MAX by {
            assert(rest[i] == parts[i + 1]);
        }
        lemma_chunked_parts(data, next, rest);
    }
}

/// Chunked decoding undoes chunked encoding: the chunked encoding of
/// non-empty parts decodes to the parts one after the other.
pub proof fn law_chunked_round_trip(parts: Seq<Seq<u8>>)
    requires
        forall|i: int| 0 <= i < parts.len() ==> (#[trigger] parts[i]).len() > 0 && parts[i].len()
            <= usize::MAX,
    ensures
        chunked_from(chunk_encoding(parts), 0) == Ok::<Seq<u8>, super::http::HttpFailure>(
            concat_parts(parts),
        ),
{
    let enc = chunk_encoding(parts);
    assert(enc.subrange(0, enc.len() as int) =~= enc);
    lemma_chunked_parts(enc, 0, parts);
}

} // verus!
