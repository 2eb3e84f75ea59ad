//! BEncode decoding.
use vstd::prelude::*;
use vstd::string::StringSliceAdditionalSpecFns;
use vstd::utf8::{decode_utf8, valid_utf8};

use super::error::{BencodeError, DecodeFailure};
use super::value::{bytes_eq, dict_lookup, lex_lt, BValue, Bencoded};
use crate::text::{
    find_byte, lemma_find_byte, parse_i64_bytes, parse_signed, parse_unsigned, parse_unsigned_bytes, slice_range,
    slice_to_vec, str_from_utf8,
};

verus! {

broadcast use vstd::std_specs::vec::group_vec_axioms;

// ---------------------------------------------------------------------------
// Specification: what decoding `s` from position `pos` yields
// ---------------------------------------------------------------------------


/// Decoding of an integer whose `i` stands at `pos`.
pub open spec fn parse_integer(s: Seq<u8>, pos: int) -> Result<(Bencoded, int), DecodeFailure> {
    match find_byte(s, pos + 1, 101u8) {
        None => Err(DecodeFailure::UnexpectedEof),
        Some(end) => {
            let num = s.subrange(pos + 1, end);
            if !valid_utf8(num) {
                Err(DecodeFailure::InvalidInteger("not valid UTF-8"@))
            } else if num.len() == 0 {
                Err(DecodeFailure::InvalidInteger("empty integer"@))
            } else if num =~= seq![45u8, 48u8] {
                Err(DecodeFailure::InvalidInteger("negative zero"@))
            } else if num.len() > 1 && num[0] == 48u8 {
                Err(DecodeFailure::InvalidInteger("leading zero: "@ + decode_utf8(num)))
            } else if num.len() > 2 && num[0] == 45u8 && num[1] == 48u8 {
                Err(DecodeFailure::InvalidInteger("leading zero after minus: "@ + decode_utf8(num)))
            } else {
                match parse_signed(num, i64::MIN as int, i64::MAX as nat) {
                    None => Err(DecodeFailure::InvalidInteger(decode_utf8(num))),
                    Some(n) => Ok((Bencoded::Int(n), end + 1)),
                }
            }
        },
    }
}

/// Decoding of a byte string (length prefix, `:`, bytes) starting at `pos`.
pub open spec fn parse_string(s: Seq<u8>, pos: int) -> Result<(Seq<u8>, int), DecodeFailure> {
    match find_byte(s, pos, 58u8) {
        None => Err(DecodeFailure::UnexpectedEof),
        Some(colon) => {
            let len_text = s.subrange(pos, colon);
            if !valid_utf8(len_text) {
                Err(DecodeFailure::InvalidStringLength("not valid UTF-8"@))
            } else {
                match parse_unsigned(len_text, usize::MAX as nat) {
                    None => Err(DecodeFailure::InvalidStringLength(decode_utf8(len_text))),
                    Some(n) => if n > s.len() - (colon + 1) {
                        Err(DecodeFailure::UnexpectedEof)
                    } else {
                        Ok((s.subrange(colon + 1, colon + 1 + n), colon + 1 + n))
                    },
                }
            }
        },
    }
}

/// The deepest nesting of lists and dictionaries that decoding accepts.
pub open spec fn max_depth() -> int {
    128
}

/// Decoding of one value starting at `pos`, inside `depth` enclosing lists
/// and dictionaries: the value and the position just after it. A list or
/// dictionary that would be nested deeper than 128 levels is refused.
pub open spec fn parse_value(s: Seq<u8>, pos: int, depth: int) -> Result<(Bencoded, int), DecodeFailure>
    decreases s.len() - pos, 0int,
{
    if pos < 0 || pos >= s.len() {
        Err(DecodeFailure::UnexpectedEof)
    } else if s[pos] == 105u8 {
        parse_integer(s, pos)
    } else if s[pos] == 108u8 {
        if depth >= max_depth() {
            Err(DecodeFailure::NestingTooDeep)
        } else {
            parse_list(s, pos + 1, Seq::empty(), depth + 1)
        }
    } else if s[pos] == 100u8 {
        if depth >= max_depth() {
            Err(DecodeFailure::NestingTooDeep)
        } else {
            parse_dict(s, pos + 1, Seq::empty(), depth + 1)
        }
    } else if 48u8 <= s[pos] <= 57u8 {
        match parse_string(s, pos) {
            Ok((b, p)) => Ok((Bencoded::Str(b), p)),
            Err(e) => Err(e),
        }
    } else {
        Err(DecodeFailure::InvalidByte(s[pos], pos))
    }
}

/// Decoding of the rest of a list whose items so far are `acc`; the items
/// stand inside `depth` lists and dictionaries.
pub open spec fn parse_list(s: Seq<u8>, pos: int, acc: Seq<Bencoded>, depth: int) -> Result<
    (Bencoded, int),
    DecodeFailure,
>
    decreases s.len() - pos, 1int,
{
    if pos < 0 || pos >= s.len() {
        Err(DecodeFailure::UnexpectedEof)
    } else if s[pos] == 101u8 {
        Ok((Bencoded::List(acc), pos + 1))
    } else {
        match parse_value(s, pos, depth) {
            Err(e) => Err(e),
            Ok((v, p)) => if pos < p <= s.len() {
                parse_list(s, p, acc.push(v), depth)
            } else {
                Err(DecodeFailure::UnexpectedEof)
            },
        }
    }
}

/// Decoding of the rest of a dictionary whose entries so far are `acc`;
/// the values stand inside `depth` lists and dictionaries.
pub open spec fn parse_dict(s: Seq<u8>, pos: int, acc: Seq<(Seq<u8>, Bencoded)>, depth: int) -> Result<
    (Bencoded, int),
    DecodeFailure,
>
    decreases s.len() - pos, 1int,
{
    if pos < 0 || pos >= s.len() {
        Err(DecodeFailure::UnexpectedEof)
    } else if s[pos] == 101u8 {
        Ok((Bencoded::Dict(acc), pos + 1))
    } else {
        match parse_string(s, pos) {
            Err(e) => Err(e),
            Ok((k, p)) => if acc.len() > 0 && !lex_lt(acc.last().0, k) {
                Err(DecodeFailure::UnsortedKeys)
            } else if pos < p <= s.len() {
                match parse_value(s, p, depth) {
                    Err(e) => Err(e),
                    Ok((v, p2)) => if p < p2 <= s.len() {
                        parse_dict(s, p2, acc.push((k, v)), depth)
                    } else {
                        Err(DecodeFailure::UnexpectedEof)
                    },
                }
            } else {
                Err(DecodeFailure::UnexpectedEof)
            },
        }
    }
}

/// Decoding of a whole byte string: one value and nothing after it.
pub open spec fn decode_spec(s: Seq<u8>) -> Result<Bencoded, DecodeFailure> {
    match parse_value(s, 0, 0) {
        Err(e) => Err(e),
        Ok((v, p)) => if p < s.len() {
            Err(DecodeFailure::TrailingData(s.len() - p))
        } else {
            Ok(v)
        },
    }
}

/// Where the value under `key` stands in `s`, in the dictionary whose
/// entries begin at `pos` (inside `depth` lists and dictionaries): the
/// positions of its first byte and of the byte after it, reading the
/// entries one by one as decoding does, up to the first entry with that key.
pub open spec fn raw_dict_value(s: Seq<u8>, pos: int, key: Seq<u8>, depth: int) -> Option<(int, int)>
    decreases s.len() - pos,
{
    if pos < 0 || pos >= s.len() || s[pos] == 101u8 {
        None
    } else {
        match parse_string(s, pos) {
            Err(_) => None,
            Ok((k, p)) => match parse_value(s, p, depth) {
                Err(_) => None,
                Ok((_, p2)) => if k == key {
                    Some((p, p2))
                } else if pos < p2 <= s.len() {
                    raw_dict_value(s, p2, key, depth)
                } else {
                    None
                },
            },
        }
    }
}

// ---------------------------------------------------------------------------
// Facts about the specification
// ---------------------------------------------------------------------------


/// Every successful parse consumes at least one byte and stays in bounds.
pub proof fn lemma_parse_string_pos(s: Seq<u8>, pos: int)
    ensures
        parse_string(s, pos) matches Ok((_, p)) ==> pos < p <= s.len(),
{
    if pos >= 0 {
        lemma_find_byte(s, pos, 58u8);
    }
}

pub proof fn lemma_parse_value_pos(s: Seq<u8>, pos: int, depth: int)
    ensures
        parse_value(s, pos, depth) matches Ok((_, p)) ==> pos < p <= s.len(),
{
    lemma_parse_string_pos(s, pos);
    if 0 <= pos < s.len() {
        lemma_find_byte(s, pos + 1, 101u8);
        if s[pos] == 108u8 {
            lemma_parse_list_pos(s, pos + 1, Seq::empty(), depth + 1);
        } else if s[pos] == 100u8 {
            lemma_parse_dict_pos(s, pos + 1, Seq::empty(), depth + 1);
        }
    }
}

pub proof fn lemma_parse_list_pos(s: Seq<u8>, pos: int, acc: Seq<Bencoded>, depth: int)
    ensures
        parse_list(s, pos, acc, depth) matches Ok((_, p)) ==> pos < p <= s.len(),
    decreases s.len() - pos,
{
    if 0 <= pos < s.len() && s[pos] != 101u8 {
        if let Ok((v, p)) = parse_value(s, pos, depth) {
            if pos < p <= s.len() {
                lemma_parse_list_pos(s, p, acc.push(v), depth);
            }
        }
    }
}

pub proof fn lemma_parse_dict_pos(s: Seq<u8>, pos: int, acc: Seq<(Seq<u8>, Bencoded)>, depth: int)
    ensures
        parse_dict(s, pos, acc, depth) matches Ok((_, p)) ==> pos < p <= s.len(),
    decreases s.len() - pos,
{
    if 0 <= pos < s.len() && s[pos] != 101u8 {
        if let Ok((k, p)) = parse_string(s, pos) {
            if pos < p <= s.len() {
                if let Ok((v, p2)) = parse_value(s, p, depth) {
                    if p < p2 <= s.len() {
                        lemma_parse_dict_pos(s, p2, acc.push((k, v)), depth);
                    }
                }
            }
        }
    }
}

/// A key that the dictionary decoded from `pos` holds, and that none of the
/// entries already read holds, is found by [`raw_dict_value`].
pub proof fn lemma_raw_dict_value_found(
    s: Seq<u8>,
    pos: int,
    acc: Seq<(Seq<u8>, Bencoded)>,
    key: Seq<u8>,
    depth: int,
)
    requires
        forall|i: int| 0 <= i < acc.len() ==> (#[trigger] acc[i]).0 != key,
        match parse_dict(s, pos, acc, depth) {
            Ok((v, _)) => v.get(key) is Some,
            Err(_) => false,
        },
    ensures
        raw_dict_value(s, pos, key, depth) is Some,
    decreases s.len() - pos,
{
    if 0 <= pos < s.len() && s[pos] == 101u8 {
        lemma_lookup_has_key(acc, key);
    } else if 0 <= pos < s.len() {
        if let Ok((k, p)) = parse_string(s, pos) {
            if let Ok((v, p2)) = parse_value(s, p, depth) {
                if k != key {
                    let acc2 = acc.push((k, v));
                    assert forall|i: int| 0 <= i < acc2.len() implies (#[trigger] acc2[i]).0 != key by {
                        if i < acc.len() {
                            assert(acc2[i] == acc[i]);
                        }
                    }
                    lemma_raw_dict_value_found(s, p2, acc2, key, depth);
                }
            }
        }
    }
}

proof fn lemma_lookup_has_key(entries: Seq<(Seq<u8>, Bencoded)>, key: Seq<u8>)
    ensures
        dict_lookup(entries, key) is Some ==> exists|i: int|
            0 <= i < entries.len() && (#[trigger] entries[i]).0 == key,
    decreases entries.len(),
{
    if entries.len() > 0 && entries[0].0 != key {
        lemma_lookup_has_key(entries.drop_first(), key);
        if dict_lookup(entries, key) is Some {
            let i = choose|i: int| 0 <= i < entries.drop_first().len() && (#[trigger] entries.drop_first()[i]).0 == key;
            assert(entries[i + 1] == entries.drop_first()[i]);
        }
    }
}

// ---------------------------------------------------------------------------
// Implementation
// ---------------------------------------------------------------------------

/// Decoder state: the input and the current position in it.
struct Decoder<'a> {
    data: &'a [u8],
    pos: usize,
}

impl<'a> Decoder<'a> {
    fn new(data: &'a [u8]) -> (r: Self)
        ensures
            r.data@ == data@,
            r.pos == 0,
    {
        Decoder { data, pos: 0 }
    }

    fn peek(&self) -> (r: Result<u8, BencodeError>)
        ensures
            self.pos < self.data@.len() ==> r == Ok::<u8, BencodeError>(self.data@[self.pos as int]),
            self.pos >= self.data@.len() ==> (r matches Err(e) && e@ == DecodeFailure::UnexpectedEof),
    {
        if self.pos < self.data.len() {
            Ok(self.data[self.pos])
        } else {
            Err(BencodeError::UnexpectedEof)
        }
    }

    /// Advances to the first `b` at or after the current position, or to
    /// the end.
    fn skip_to(&mut self, b: u8)
        requires
            old(self).pos <= old(self).data@.len(),
        ensures
            final(self).data@ == old(self).data@,
            match find_byte(old(self).data@, old(self).pos as int, b) {
                Some(i) => final(self).pos == i,
                None => final(self).pos == old(self).data@.len(),
            },
    {
        let ghost start = self.pos as int;
        let ghost s = self.data@;
        while self.pos < self.data.len() && self.data[self.pos] != b
            invariant
                self.data@ == s,
                start <= self.pos <= s.len(),
                find_byte(s, start, b) == find_byte(s, self.pos as int, b),
            decreases s.len() - self.pos,
        {
            self.pos += 1;
        }
    }

    fn decode_value(&mut self, depth: usize) -> (r: Result<BValue, BencodeError>)
        requires
            old(self).pos <= old(self).data.len(),
            depth <= 128,
        ensures
            final(self).data@ == old(self).data@,
            final(self).pos <= final(self).data@.len(),
            match r {
                Ok(v) => parse_value(old(self).data@, old(self).pos as int, depth as int) == Ok::<
                    (Bencoded, int),
                    DecodeFailure,
                >((v.model(), final(self).pos as int)),
                Err(e) => parse_value(old(self).data@, old(self).pos as int, depth as int) == Err::<
                    (Bencoded, int),
                    DecodeFailure,
                >(e@),
            },
        decreases old(self).data@.len() - old(self).pos, 2int,
    {
        let b = self.peek()?;
        if b == 105u8 {
            self.decode_integer()
        } else if b == 108u8 {
            if depth >= 128 {
                return Err(BencodeError::NestingTooDeep);
            }
            self.decode_list(depth + 1)
        } else if b == 100u8 {
            if depth >= 128 {
                return Err(BencodeError::NestingTooDeep);
            }
            self.decode_dict(depth + 1)
        } else if 48u8 <= b && b <= 57u8 {
            let (bytes, _) = self.decode_string()?;
            Ok(BValue::String(bytes))
        } else {
            Err(BencodeError::InvalidByte { byte: b, position: self.pos })
        }
    }

    fn decode_integer(&mut self) -> (r: Result<BValue, BencodeError>)
        requires
            old(self).pos < old(self).data.len(),
            old(self).data@[old(self).pos as int] == 105u8,
        ensures
            final(self).data@ == old(self).data@,
            final(self).pos <= final(self).data@.len(),
            match r {
                Ok(v) => parse_integer(old(self).data@, old(self).pos as int) == Ok::<
                    (Bencoded, int),
                    DecodeFailure,
                >((v.model(), final(self).pos as int)),
                Err(e) => parse_integer(old(self).data@, old(self).pos as int) == Err::<
                    (Bencoded, int),
                    DecodeFailure,
                >(e@),
            },
    {
        let ghost s = self.data@;
        let ghost pos0 = self.pos as int;
        self.pos += 1;
        let start = self.pos;
        self.skip_to(101u8);
        proof {
            lemma_find_byte(s, pos0 + 1, 101u8);
        }
        if self.pos >= self.data.len() {
            return Err(BencodeError::UnexpectedEof);
        }
        let end = self.pos;
        let num = slice_range(self.data, start, end);
        let num_str = match str_from_utf8(num) {
            Ok(t) => t,
            Err(_) => {
                return Err(BencodeError::InvalidInteger(String::from_str("not valid UTF-8")));
            },
        };
        if num.len() == 0 {
            return Err(BencodeError::InvalidInteger(String::from_str("empty integer")));
        }
        if num.len() == 2 && num[0] == 45u8 && num[1] == 48u8 {
            assert(num@ =~= seq![45u8, 48u8]);
            return Err(BencodeError::InvalidInteger(String::from_str("negative zero")));
        }
        assert(!(num@ =~= seq![45u8, 48u8]));
        if num.len() > 1 && num[0] == 48u8 {
            return Err(
                BencodeError::InvalidInteger(String::from_str("leading zero: ").concat(num_str)),
            );
        }
        if num.len() > 2 && num[0] == 45u8 && num[1] == 48u8 {
            return Err(
                BencodeError::InvalidInteger(
                    String::from_str("leading zero after minus: ").concat(num_str),
                ),
            );
        }
        match parse_i64_bytes(num) {
            None => Err(BencodeError::InvalidInteger(String::from_str(num_str))),
            Some(n) => {
                self.pos += 1;
                Ok(BValue::Integer(n))
            },
        }
    }

    /// Decodes a byte string; also returns the position where it began.
    fn decode_string(&mut self) -> (r: Result<(Vec<u8>, usize), BencodeError>)
        requires
            old(self).pos <= old(self).data@.len(),
        ensures
            final(self).data@ == old(self).data@,
            final(self).pos <= final(self).data@.len(),
            match r {
                Ok((b, _)) => parse_string(old(self).data@, old(self).pos as int) == Ok::<
                    (Seq<u8>, int),
                    DecodeFailure,
                >((b@, final(self).pos as int)),
                Err(e) => parse_string(old(self).data@, old(self).pos as int) == Err::<
                    (Seq<u8>, int),
                    DecodeFailure,
                >(e@),
            },
    {
        let ghost s = self.data@;
        let start = self.pos;
        let n = self.data.len();
        self.skip_to(58u8);
        proof {
            lemma_find_byte(s, start as int, 58u8);
        }
        if self.pos >= self.data.len() {
            return Err(BencodeError::UnexpectedEof);
        }
        let colon = self.pos;
        let len_text = slice_range(self.data, start, colon);
        let len_str = match str_from_utf8(len_text) {
            Ok(t) => t,
            Err(_) => {
                return Err(
                    BencodeError::InvalidStringLength(String::from_str("not valid UTF-8")),
                );
            },
        };
        let len = match parse_unsigned_bytes(len_text, usize::MAX as u64) {
            Some(n) => n as usize,
            None => {
                return Err(BencodeError::InvalidStringLength(String::from_str(len_str)));
            },
        };
        self.pos += 1;
        if len > self.data.len() - self.pos {
            return Err(BencodeError::UnexpectedEof);
        }
        let bytes = slice_to_vec(slice_range(self.data, self.pos, self.pos + len));
        self.pos += len;
        Ok((bytes, start))
    }

    fn decode_list(&mut self, depth: usize) -> (r: Result<BValue, BencodeError>)
        requires
            depth <= 128,
            old(self).pos < old(self).data.len(),
            old(self).data@[old(self).pos as int] == 108u8,
        ensures
            final(self).data@ == old(self).data@,
            final(self).pos <= final(self).data@.len(),
            match r {
                Ok(v) => parse_list(old(self).data@, old(self).pos + 1, Seq::empty(), depth as int)
                    == Ok::<(Bencoded, int), DecodeFailure>((v.model(), final(self).pos as int)),
                Err(e) => parse_list(old(self).data@, old(self).pos + 1, Seq::empty(), depth as int)
                    == Err::<
                    (Bencoded, int),
                    DecodeFailure,
                >(e@),
            },
        decreases old(self).data@.len() - old(self).pos, 1int,
    {
        let ghost s = self.data@;
        let ghost pos0 = self.pos as int;
        self.pos += 1;
        let mut items: Vec<BValue> = Vec::new();
        assert(BValue::models(items@) =~= Seq::<Bencoded>::empty());
        loop
            invariant
                self.data@ == s,
                s == old(self).data@,
                pos0 == old(self).pos,
                pos0 < self.pos <= self.data.len(),
                depth <= 128,
                parse_list(s, self.pos as int, BValue::models(items@), depth as int) == parse_list(
                    s,
                    pos0 + 1,
                    Seq::empty(),
                    depth as int,
                ),
            decreases s.len() - self.pos,
        {
            let b = self.peek()?;
            if b == 101u8 {
                self.pos += 1;
                return Ok(BValue::List(items));
            }
            let ghost before = self.pos as int;
            let v = self.decode_value(depth)?;
            proof {
                lemma_parse_value_pos(s, before, depth as int);
                assert(items@.push(v).drop_last() =~= items@);
            }
            items.push(v);
        }
    }

    fn decode_dict(&mut self, depth: usize) -> (r: Result<BValue, BencodeError>)
        requires
            depth <= 128,
            old(self).pos < old(self).data.len(),
            old(self).data@[old(self).pos as int] == 100u8,
        ensures
            final(self).data@ == old(self).data@,
            final(self).pos <= final(self).data@.len(),
            match r {
                Ok(v) => parse_dict(old(self).data@, old(self).pos + 1, Seq::empty(), depth as int)
                    == Ok::<(Bencoded, int), DecodeFailure>((v.model(), final(self).pos as int)),
                Err(e) => parse_dict(old(self).data@, old(self).pos + 1, Seq::empty(), depth as int)
                    == Err::<
                    (Bencoded, int),
                    DecodeFailure,
                >(e@),
            },
        decreases old(self).data@.len() - old(self).pos, 1int,
    {
        let ghost s = self.data@;
        let ghost pos0 = self.pos as int;
        self.pos += 1;
        let mut entries: Vec<(Vec<u8>, BValue)> = Vec::new();
        assert(BValue::entry_models(entries@) =~= Seq::<(Seq<u8>, Bencoded)>::empty());
        loop
            invariant
                self.data@ == s,
                s == old(self).data@,
                pos0 == old(self).pos,
                pos0 < self.pos <= self.data.len(),
                depth <= 128,
                parse_dict(s, self.pos as int, BValue::entry_models(entries@), depth as int)
                    == parse_dict(s, pos0 + 1, Seq::empty(), depth as int),
            decreases s.len() - self.pos,
        {
            let b = self.peek()?;
            if b == 101u8 {
                self.pos += 1;
                return Ok(BValue::Dict(entries));
            }
            let ghost before = self.pos as int;
            let (key, _) = self.decode_string()?;
            proof {
                lemma_parse_string_pos(s, before);
            }
            if entries.len() > 0 {
                let last = entries.len() - 1;
                if !bytes_lt(entries[last].0.as_slice(), key.as_slice()) {
                    return Err(BencodeError::UnsortedKeys);
                }
            }
            let ghost mid = self.pos as int;
            let v = self.decode_value(depth)?;
            proof {
                lemma_parse_value_pos(s, mid, depth as int);
                assert(entries@.push((key, v)).drop_last() =~= entries@);
            }
            entries.push((key, v));
        }
    }
}

/// Strict lexicographic comparison of byte strings.
pub fn bytes_lt(a: &[u8], b: &[u8]) -> (r: bool)
    ensures
        r == lex_lt(a@, b@),
{
    let mut i: usize = 0;
    assert(a@.subrange(0, a@.len() as int) =~= a@);
    assert(b@.subrange(0, b@.len() as int) =~= b@);
    while i < a.len() && i < b.len() && a[i] == b[i]
        invariant
            i <= a.len(),
            i <= b.len(),
            lex_lt(a@, b@) == lex_lt(
                a@.subrange(i as int, a@.len() as int),
                b@.subrange(i as int, b@.len() as int),
            ),
        decreases a.len() - i,
    {
        let ghost sa = a@.subrange(i as int, a@.len() as int);
        let ghost sb = b@.subrange(i as int, b@.len() as int);
        assert(sa.drop_first() =~= a@.subrange(i + 1, a@.len() as int));
        assert(sb.drop_first() =~= b@.subrange(i + 1, b@.len() as int));
        i += 1;
    }
    if i == a.len() {
        i < b.len()
    } else if i == b.len() {
        false
    } else {
        a[i] < b[i]
    }
}

/// Where the value under `key` stands in `bytes`, in the dictionary whose
/// entries begin at `pos` (inside `depth` lists and dictionaries): the
/// positions of its first byte and of the byte after it.
pub fn dict_value_span(bytes: &[u8], pos: usize, key: &str, depth: usize) -> (r: Option<(usize, usize)>)
    requires
        pos <= bytes@.len(),
        depth <= 128,
    ensures
        match r {
            Some((x, y)) => raw_dict_value(bytes@, pos as int, key.spec_bytes(), depth as int)
                == Some((x as int, y as int)) && x <= y <= bytes@.len(),
            None => raw_dict_value(bytes@, pos as int, key.spec_bytes(), depth as int) is None,
        },
{
    let key_bytes = key.as_bytes();
    let mut d = Decoder { data: bytes, pos };
    loop
        invariant
            d.data@ == bytes@,
            d.pos <= bytes@.len(),
            depth <= 128,
            key_bytes@ == key.spec_bytes(),
            raw_dict_value(bytes@, d.pos as int, key_bytes@, depth as int) == raw_dict_value(
                bytes@,
                pos as int,
                key_bytes@,
                depth as int,
            ),
        decreases bytes@.len() - d.pos,
    {
        if d.pos >= bytes.len() || bytes[d.pos] == 101u8 {
            return None;
        }
        let ghost before = d.pos as int;
        let k = match d.decode_string() {
            Ok((k, _)) => k,
            Err(_) => {
                return None;
            },
        };
        proof {
            lemma_parse_string_pos(bytes@, before);
        }
        let start = d.pos;
        match d.decode_value(depth) {
            Ok(_) => {},
            Err(_) => {
                return None;
            },
        }
        proof {
            lemma_parse_value_pos(bytes@, start as int, depth as int);
        }
        if bytes_eq(k.as_slice(), key_bytes) {
            return Some((start, d.pos));
        }
    }
}

/// Decodes a BEncoded byte slice into a `BValue`.
///
/// Returns an error if the input is malformed or contains trailing data.
pub fn decode(bytes: &[u8]) -> (r: Result<BValue, BencodeError>)
    ensures
        match r {
            Ok(v) => decode_spec(bytes@) == Ok::<Bencoded, DecodeFailure>(v.model()),
            Err(e) => decode_spec(bytes@) == Err::<Bencoded, DecodeFailure>(e@),
        },
{
    let mut decoder = Decoder::new(bytes);
    let value = decoder.decode_value(0)?;
    if decoder.pos < decoder.data.len() {
        return Err(BencodeError::TrailingData { remaining: decoder.data.len() - decoder.pos });
    }
    Ok(value)
}

/// Decodes a BEncoded byte slice, returning the value and the number of
/// bytes consumed. Unlike [`decode`], the input need not end after the value.
pub fn decode_prefix(bytes: &[u8]) -> (r: Result<(BValue, usize), BencodeError>)
    ensures
        match r {
            Ok((v, n)) => parse_value(bytes@, 0, 0) == Ok::<(Bencoded, int), DecodeFailure>(
                (v.model(), n as int),
            ),
            Err(e) => parse_value(bytes@, 0, 0) == Err::<(Bencoded, int), DecodeFailure>(e@),
        },
{
    let mut decoder = Decoder::new(bytes);
    let value = decoder.decode_value(0)?;
    Ok((value, decoder.pos))
}

} // verus!
