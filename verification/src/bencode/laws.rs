//! What decoding and encoding promise of each other.
use vstd::prelude::*;

use super::decoder::{
    decode_spec,
    parse_dict, parse_list, parse_string, parse_value,
};
use super::encoder::encode_bytes;
use super::value::{keys_increasing, lex_lt, Bencoded};
use crate::text::{
    all_ascii, decimal, find_byte, is_digit, lemma_ascii_utf8, lemma_find_byte, lemma_decimal, lemma_parse_decimal,
    lemma_parse_signed_decimal, lemma_signed_decimal, signed_decimal,
};

verus! {

/// `x` stands in `s` at `pos`.
pub open spec fn at(s: Seq<u8>, pos: int, x: Seq<u8>) -> bool {
    0 <= pos && pos + x.len() <= s.len() && s.subrange(pos, pos + x.len()) =~= x
}

proof fn lemma_at_split(s: Seq<u8>, pos: int, x: Seq<u8>, y: Seq<u8>)
    requires
        at(s, pos, x + y),
    ensures
        at(s, pos, x),
        at(s, pos + x.len(), y),
{
    assert(s.subrange(pos, pos + x.len()) =~= (x + y).subrange(0, x.len() as int));
    assert(s.subrange(pos + x.len(), pos + x.len() + y.len()) =~= (x + y).subrange(
        x.len() as int,
        (x + y).len() as int,
    ));
}

proof fn lemma_at_join(s: Seq<u8>, pos: int, x: Seq<u8>, y: Seq<u8>)
    requires
        at(s, pos, x),
        at(s, pos + x.len(), y),
    ensures
        at(s, pos, x + y),
{
    assert(s.subrange(pos, pos + x.len() + y.len()) =~= s.subrange(pos, pos + x.len())
        + s.subrange(pos + x.len(), pos + x.len() + y.len()));
}

proof fn lemma_at_index(s: Seq<u8>, pos: int, x: Seq<u8>, i: int)
    requires
        at(s, pos, x),
        0 <= i < x.len(),
    ensures
        s[pos + i] == x[i],
{
    assert(s.subrange(pos, pos + x.len())[i] == s[pos + i]);
}

proof fn lemma_find_first(s: Seq<u8>, from: int, b: u8, k: int)
    requires
        0 <= from <= k < s.len(),
        s[k] == b,
        forall|j: int| from <= j < k ==> s[j] != b,
    ensures
        find_byte(s, from, b) == Some(k),
    decreases k - from,
{
    if from < k {
        lemma_find_first(s, from + 1, b, k);
    }
}

/// The first byte of an encoding, which tells its kind.
proof fn lemma_encode_first(v: Bencoded)
    ensures
        v.encode().len() >= 1,
        v.encode()[0] != 101u8,
        v is Str ==> 48u8 <= v.encode()[0] <= 57u8,
        v is Int ==> v.encode()[0] == 105u8,
        v is List ==> v.encode()[0] == 108u8,
        v is Dict ==> v.encode()[0] == 100u8,
{
    match v {
        Bencoded::Str(b) => {
            lemma_decimal(b.len());
            assert(is_digit(decimal(b.len())[0]));
            assert(v.encode()[0] == decimal(b.len())[0]);
        },
        _ => {},
    }
}

/// A byte string's encoding decodes to that byte string.
proof fn lemma_parse_bytes(b: Seq<u8>, s: Seq<u8>, pos: int)
    requires
        b.len() <= usize::MAX,
        at(s, pos, encode_bytes(b)),
    ensures
        parse_string(s, pos) == Ok::<(Seq<u8>, int), super::error::DecodeFailure>(
            (b, pos + encode_bytes(b).len()),
        ),
{
    let d = decimal(b.len());
    lemma_decimal(b.len());
    lemma_at_split(s, pos, d + seq![58u8], b);
    lemma_at_split(s, pos, d, seq![58u8]);
    lemma_at_index(s, pos + d.len(), seq![58u8], 0);
    assert forall|j: int| pos <= j < pos + d.len() implies s[j] != 58u8 by {
        lemma_at_index(s, pos, d, j - pos);
        assert(is_digit(d[j - pos]));
    }
    lemma_find_first(s, pos, 58u8, pos + d.len());
    assert(all_ascii(d)) by {
        assert forall|i: int| 0 <= i < d.len() implies (#[trigger] d[i]) < 128u8 by {
            assert(is_digit(d[i]));
        }
    }
    lemma_ascii_utf8(d);
    lemma_parse_decimal(b.len(), usize::MAX as nat);
}

/// The encoding of a well-formed value decodes to that value, wherever it
/// stands in the input.
pub proof fn lemma_parse_encoded(v: Bencoded, s: Seq<u8>, pos: int, depth: int)
    requires
        v.wf(),
        v.fits_depth(depth),
        at(s, pos, v.encode()),
    ensures
        parse_value(s, pos, depth) == Ok::<(Bencoded, int), super::error::DecodeFailure>(
            (v, pos + v.encode().len()),
        ),
    decreases v,
{
    lemma_encode_first(v);
    lemma_at_index(s, pos, v.encode(), 0);
    match v {
        Bencoded::Str(b) => {
            lemma_parse_bytes(b, s, pos);
        },
        Bencoded::Int(n) => {
            let sd = signed_decimal(n);
            lemma_signed_decimal(n);
            lemma_at_split(s, pos, seq![105u8] + sd, seq![101u8]);
            lemma_at_split(s, pos, seq![105u8], sd);
            lemma_at_index(s, pos + 1 + sd.len(), seq![101u8], 0);
            assert forall|j: int| pos + 1 <= j < pos + 1 + sd.len() implies s[j] != 101u8 by {
                lemma_at_index(s, pos + 1, sd, j - pos - 1);
            }
            lemma_find_first(s, pos + 1, 101u8, pos + 1 + sd.len());
            lemma_ascii_utf8(sd);
            lemma_parse_signed_decimal(n, i64::MIN as int, i64::MAX as nat);
            let num = s.subrange(pos + 1, pos + 1 + sd.len());
            assert(num =~= sd);
            if n < 0 {
                lemma_decimal((-n) as nat);
                assert(sd[1] == decimal((-n) as nat)[0]);
                assert(!(num =~= seq![45u8, 48u8]));
            } else {
                lemma_decimal(n as nat);
                assert(is_digit(sd[0]));
                if sd.len() >= 2 {
                    assert(sd =~= seq![sd[0], sd[1]] || sd.len() > 2);
                }
            }
        },
        Bencoded::List(items) => {
            let ei = Bencoded::encode_items(items);
            lemma_at_split(s, pos, seq![108u8] + ei, seq![101u8]);
            lemma_at_split(s, pos, seq![108u8], ei);
            lemma_at_join(s, pos + 1, ei, seq![101u8]);
            lemma_parse_items(items, s, pos + 1, Seq::empty(), depth + 1);
            assert(Seq::<Bencoded>::empty() + items =~= items);
        },
        Bencoded::Dict(entries) => {
            let ee = Bencoded::encode_entries(entries);
            lemma_at_split(s, pos, seq![100u8] + ee, seq![101u8]);
            lemma_at_split(s, pos, seq![100u8], ee);
            lemma_at_join(s, pos + 1, ee, seq![101u8]);
            lemma_parse_entries(entries, s, pos + 1, Seq::empty(), depth + 1);
            assert(Seq::<(Seq<u8>, Bencoded)>::empty() + entries =~= entries);
        },
    }
}

proof fn lemma_parse_items(items: Seq<Bencoded>, s: Seq<u8>, pos: int, acc: Seq<Bencoded>, depth: int)
    requires
        forall|i: int| 0 <= i < items.len() ==> (#[trigger] items[i]).wf() && items[i].fits_depth(depth),
        at(s, pos, Bencoded::encode_items(items) + seq![101u8]),
    ensures
        parse_list(s, pos, acc, depth) == Ok::<(Bencoded, int), super::error::DecodeFailure>(
            (Bencoded::List(acc + items), pos + Bencoded::encode_items(items).len() + 1),
        ),
    decreases items,
{
    let ei = Bencoded::encode_items(items);
    lemma_at_split(s, pos, ei, seq![101u8]);
    if items.len() == 0 {
        lemma_at_index(s, pos, ei + seq![101u8], 0);
        assert(acc + items =~= acc);
    } else {
        let first = items[0];
        let rest = items.drop_first();
        let e0 = first.encode();
        let er = Bencoded::encode_items(rest);
        assert(ei == e0 + er);
        lemma_at_split(s, pos, e0, er);
        lemma_at_join(s, pos + e0.len(), er, seq![101u8]);
        lemma_encode_first(first);
        lemma_at_index(s, pos, e0, 0);
        lemma_parse_encoded(first, s, pos, depth);
        assert forall|i: int| 0 <= i < rest.len() implies (#[trigger] rest[i]).wf() && rest[i].fits_depth(depth) by {
            assert(rest[i] == items[i + 1]);
        }
        lemma_parse_items(rest, s, pos + e0.len(), acc.push(first), depth);
        assert(acc.push(first) + rest =~= acc + items);
    }
}

proof fn lemma_parse_entries(
    entries: Seq<(Seq<u8>, Bencoded)>,
    s: Seq<u8>,
    pos: int,
    acc: Seq<(Seq<u8>, Bencoded)>,
    depth: int,
)
    requires
        keys_increasing(entries),
        forall|i: int|
            0 <= i < entries.len() ==> (#[trigger] entries[i]).0.len() <= usize::MAX
                && entries[i].1.wf() && entries[i].1.fits_depth(depth),
        acc.len() > 0 && entries.len() > 0 ==> lex_lt(acc.last().0, entries[0].0),
        at(s, pos, Bencoded::encode_entries(entries) + seq![101u8]),
    ensures
        parse_dict(s, pos, acc, depth) == Ok::<(Bencoded, int), super::error::DecodeFailure>(
            (Bencoded::Dict(acc + entries), pos + Bencoded::encode_entries(entries).len() + 1),
        ),
    decreases entries,
{
    let ee = Bencoded::encode_entries(entries);
    lemma_at_split(s, pos, ee, seq![101u8]);
    if entries.len() == 0 {
        lemma_at_index(s, pos, ee + seq![101u8], 0);
        assert(acc + entries =~= acc);
    } else {
        let (k, v) = entries[0];
        let rest = entries.drop_first();
        let ek = encode_bytes(k);
        let ev = v.encode();
        let er = Bencoded::encode_entries(rest);
        assert(ee == ek + ev + er);
        lemma_at_split(s, pos, ek + ev, er);
        lemma_at_split(s, pos, ek, ev);
        lemma_at_join(s, pos + ek.len() + ev.len(), er, seq![101u8]);
        lemma_decimal(k.len());
        assert(is_digit(decimal(k.len())[0]));
        lemma_at_index(s, pos, ek, 0);
        lemma_parse_bytes(k, s, pos);
        assert(decreases_to!(entries => entries[0]));
        lemma_parse_encoded(v, s, pos + ek.len(), depth);
        assert forall|i: int|
            0 <= i < rest.len() implies (#[trigger] rest[i]).0.len() <= usize::MAX
                && rest[i].1.wf() && rest[i].1.fits_depth(depth) by {
            assert(rest[i] == entries[i + 1]);
        }
        assert(keys_increasing(rest)) by {
            assert forall|i: int| 0 <= i < rest.len() - 1 implies lex_lt(
                #[trigger] rest[i].0,
                rest[i + 1].0,
            ) by {
                assert(rest[i] == entries[i + 1]);
                assert(rest[i + 1] == entries[i + 2]);
            }
        }
        if rest.len() > 0 {
            assert(lex_lt(entries[0].0, entries[1].0));
        }
        lemma_parse_entries(rest, s, pos + ek.len() + ev.len(), acc.push((k, v)), depth);
        assert(acc.push((k, v)) + rest =~= acc + entries);
    }
}

/// Decoding inverts encoding: the encoding of a well-formed value whose
/// lists and dictionaries nest at most 128 deep decodes to that same value,
/// with nothing left over.
pub proof fn law_decode_encode(v: Bencoded)
    requires
        v.wf(),
        v.fits_depth(0),
    ensures
        decode_spec(v.encode()) == Ok::<Bencoded, super::error::DecodeFailure>(v),
{
    let s = v.encode();
    assert(s.subrange(0, s.len() as int) =~= s);
    lemma_parse_encoded(v, s, 0, 0);
}

/// Everything decoding produces is well formed: integers fit in `i64`,
/// strings fit in memory, dictionary keys strictly increase, and lists and
/// dictionaries nest at most 128 deep.
pub proof fn law_decoded_wf(s: Seq<u8>)
    ensures
        decode_spec(s) matches Ok(v) ==> v.wf() && v.fits_depth(0),
{
    lemma_parse_value_wf(s, 0, 0);
}

/// The items of a list, or the values of a dictionary, fit inside `depth`
/// enclosing lists and dictionaries.
pub open spec fn children_fit(v: Bencoded, depth: int) -> bool {
    match v {
        Bencoded::List(items) => forall|i: int|
            0 <= i < items.len() ==> (#[trigger] items[i]).fits_depth(depth),
        Bencoded::Dict(entries) => forall|i: int|
            0 <= i < entries.len() ==> (#[trigger] entries[i]).1.fits_depth(depth),
        _ => true,
    }
}

pub proof fn lemma_parse_value_wf(s: Seq<u8>, pos: int, depth: int)
    ensures
        parse_value(s, pos, depth) matches Ok((v, _)) ==> v.wf() && v.fits_depth(depth),
    decreases s.len() - pos, 0int,
{
    if 0 <= pos < s.len() {
        lemma_find_byte(s, pos + 1, 101u8);
        lemma_find_byte(s, pos, 58u8);
        if s[pos] == 105u8 {
        } else if s[pos] == 108u8 {
            lemma_parse_list_wf(s, pos + 1, Seq::empty(), depth + 1);
        } else if s[pos] == 100u8 {
            lemma_parse_dict_wf(s, pos + 1, Seq::empty(), depth + 1);
        }
    }
}

pub proof fn lemma_parse_list_wf(s: Seq<u8>, pos: int, acc: Seq<Bencoded>, depth: int)
    requires
        forall|i: int| 0 <= i < acc.len() ==> (#[trigger] acc[i]).wf() && acc[i].fits_depth(depth),
    ensures
        parse_list(s, pos, acc, depth) matches Ok((v, _)) ==> v.wf() && v is List
            && children_fit(v, depth),
    decreases s.len() - pos, 1int,
{
    if 0 <= pos < s.len() && s[pos] != 101u8 {
        lemma_parse_value_wf(s, pos, depth);
        if let Ok((v, p)) = parse_value(s, pos, depth) {
            if pos < p <= s.len() {
                assert forall|i: int| 0 <= i < acc.push(v).len() implies (#[trigger] acc.push(
                    v,
                )[i]).wf() && acc.push(v)[i].fits_depth(depth) by {
                    if i < acc.len() {
                        assert(acc.push(v)[i] == acc[i]);
                    }
                }
                lemma_parse_list_wf(s, p, acc.push(v), depth);
            }
        }
    }
}

proof fn lemma_parse_dict_wf(s: Seq<u8>, pos: int, acc: Seq<(Seq<u8>, Bencoded)>, depth: int)
    requires
        keys_increasing(acc),
        forall|i: int|
            0 <= i < acc.len() ==> (#[trigger] acc[i]).0.len() <= usize::MAX && acc[i].1.wf()
                && acc[i].1.fits_depth(depth),
    ensures
        parse_dict(s, pos, acc, depth) matches Ok((v, _)) ==> v.wf() && v is Dict
            && children_fit(v, depth),
    decreases s.len() - pos, 1int,
{
    if 0 <= pos < s.len() && s[pos] != 101u8 {
        if let Ok((k, p)) = parse_string(s, pos) {
            if !(acc.len() > 0 && !lex_lt(acc.last().0, k)) && pos < p <= s.len() {
                lemma_parse_value_wf(s, p, depth);
                if let Ok((v, p2)) = parse_value(s, p, depth) {
                    if p < p2 <= s.len() {
                        let acc2 = acc.push((k, v));
                        assert(k.len() <= usize::MAX) by {
                            lemma_find_byte(s, pos, 58u8);
                        }
                        assert forall|i: int|
                            0 <= i < acc2.len() implies (#[trigger] acc2[i]).0.len() <= usize::MAX
                                && acc2[i].1.wf() && acc2[i].1.fits_depth(depth) by {
                            if i < acc.len() {
                                assert(acc2[i] == acc[i]);
                            }
                        }
                        assert(keys_increasing(acc2)) by {
                            assert forall|i: int| 0 <= i < acc2.len() - 1 implies lex_lt(
                                #[trigger] acc2[i].0,
                                acc2[i + 1].0,
                            ) by {
                                assert(acc2[i] == acc[i]);
                                if i + 1 < acc.len() {
                                    assert(acc2[i + 1] == acc[i + 1]);
                                }
                            }
                        }
                        lemma_parse_dict_wf(s, p2, acc2, depth);
                    }
                }
            }
        }
    }
}

} // verus!
