//! Decimal and hexadecimal text, integer parsing as Rust's `FromStr` does it,
//! and the few string primitives the rest of the crate builds on.
use vstd::prelude::*;
use vstd::string::StringSliceAdditionalSpecFns;
use vstd::utf8::*;

verus! {

// ---------------------------------------------------------------------------
// Digits and decimal text
// ---------------------------------------------------------------------------

/// An ASCII decimal digit.
pub open spec fn is_digit(b: u8) -> bool {
    48 <= b <= 57
}

/// Every byte is an ASCII decimal digit.
pub open spec fn all_digits(s: Seq<u8>) -> bool {
    forall|i: int| 0 <= i < s.len() ==> #[trigger] is_digit(s[i])
}

/// The number written by a string of decimal digits (most significant first).
pub open spec fn digits_value(s: Seq<u8>) -> nat
    decreases s.len(),
{
    if s.len() == 0 {
        0
    } else {
        digits_value(s.drop_last()) * 10 + (s.last() - 48) as nat
    }
}

/// The shortest decimal text of `n`, as `n.to_string()` writes it.
pub open spec fn decimal(n: nat) -> Seq<u8>
    decreases n,
{
    if n < 10 {
        seq![(48 + n) as u8]
    } else {
        decimal(n / 10).push((48 + n % 10) as u8)
    }
}

/// The decimal text of a signed integer, with a leading `-` when negative.
pub open spec fn signed_decimal(n: int) -> Seq<u8> {
    if n < 0 {
        seq![45u8] + decimal((-n) as nat)
    } else {
        decimal(n as nat)
    }
}

/// Rust's `FromStr` for an unsigned integer type whose maximum is `max`:
/// an optional `+`, then one or more decimal digits, in range.
pub open spec fn parse_unsigned(s: Seq<u8>, max: nat) -> Option<nat> {
    if s.len() == 0 {
        None
    } else {
        let body = if s[0] == 43u8 {
            s.drop_first()
        } else {
            s
        };
        if body.len() == 0 || !all_digits(body) || digits_value(body) > max {
            None
        } else {
            Some(digits_value(body))
        }
    }
}

/// Rust's `FromStr` for a signed integer type with bounds `min..=max`:
/// an optional `+` or `-`, then one or more decimal digits, in range.
pub open spec fn parse_signed(s: Seq<u8>, min: int, max: nat) -> Option<int> {
    if s.len() == 0 {
        None
    } else if s[0] == 45u8 {
        let body = s.drop_first();
        if body.len() == 0 || !all_digits(body) || -digits_value(body) < min {
            None
        } else {
            Some(-digits_value(body))
        }
    } else {
        match parse_unsigned(s, max) {
            Some(v) => Some(v as int),
            None => None,
        }
    }
}

pub proof fn lemma_digits_value_prefix(s: Seq<u8>, k: int)
    requires
        0 <= k <= s.len(),
    ensures
        digits_value(s.take(k)) <= digits_value(s),
    decreases s.len(),
{
    if k < s.len() {
        lemma_digits_value_prefix(s.drop_last(), k);
        assert(s.drop_last().take(k) =~= s.take(k));
    } else {
        assert(s.take(k) =~= s);
    }
}

pub proof fn lemma_decimal(n: nat)
    ensures
        decimal(n).len() >= 1,
        all_digits(decimal(n)),
        digits_value(decimal(n)) == n,
        n > 0 ==> decimal(n)[0] != 48u8,
        n < 10 ==> decimal(n).len() == 1,
        n >= 10 ==> decimal(n).len() >= 2,
    decreases n,
{
    let d = decimal(n);
    if n < 10 {
        assert(d.drop_last() =~= Seq::<u8>::empty());
        assert(digits_value(d.drop_last()) == 0);
        assert(d.last() == 48 + n);
        assert(is_digit(d[0]));
    } else {
        lemma_decimal(n / 10);
        assert(d.drop_last() =~= decimal(n / 10));
        assert(d.last() == (48 + n % 10) as u8);
        assert(n == (n / 10) * 10 + n % 10);
        assert forall|i: int| 0 <= i < d.len() implies #[trigger] is_digit(d[i]) by {
            if i < d.len() - 1 {
                assert(d[i] == decimal(n / 10)[i]);
            }
        }
    }
}

pub proof fn lemma_signed_decimal(n: int)
    ensures
        signed_decimal(n).len() >= 1,
        forall|i: int| 0 <= i < signed_decimal(n).len() ==> (#[trigger] signed_decimal(n)[i]) < 128u8,
        forall|i: int|
            0 <= i < signed_decimal(n).len() ==> (#[trigger] signed_decimal(n)[i]) != 101u8
                && signed_decimal(n)[i] != 58u8,
        n >= 0 ==> signed_decimal(n) == decimal(n as nat),
{
    if n < 0 {
        lemma_decimal((-n) as nat);
        let d = decimal((-n) as nat);
        assert forall|i: int| 0 <= i < signed_decimal(n).len() implies (#[trigger] signed_decimal(
            n,
        )[i]) < 128u8 && signed_decimal(n)[i] != 101u8 && signed_decimal(n)[i] != 58u8 by {
            if i > 0 {
                assert(signed_decimal(n)[i] == d[i - 1]);
                assert(is_digit(d[i - 1]));
            }
        }
    } else {
        lemma_decimal(n as nat);
        assert forall|i: int| 0 <= i < signed_decimal(n).len() implies (#[trigger] signed_decimal(
            n,
        )[i]) < 128u8 && signed_decimal(n)[i] != 101u8 && signed_decimal(n)[i] != 58u8 by {
            assert(is_digit(decimal(n as nat)[i]));
        }
    }
}

/// The decimal text of `n` parses back to `n`.
pub proof fn lemma_parse_decimal(n: nat, max: nat)
    requires
        n <= max,
    ensures
        parse_unsigned(decimal(n), max) == Some(n),
{
    lemma_decimal(n);
    assert(is_digit(decimal(n)[0]));
}

/// The signed decimal text of `n` parses back to `n`.
pub proof fn lemma_parse_signed_decimal(n: int, min: int, max: nat)
    requires
        min <= n <= max,
    ensures
        parse_signed(signed_decimal(n), min, max) == Some(n),
{
    if n < 0 {
        lemma_decimal((-n) as nat);
        assert((seq![45u8] + decimal((-n) as nat)).drop_first() =~= decimal((-n) as nat));
    } else {
        lemma_decimal(n as nat);
        assert(is_digit(decimal(n as nat)[0]));
    }
}

/// The first index at or after `from` that holds `b`.
pub open spec fn find_byte(s: Seq<u8>, from: int, b: u8) -> Option<int>
    decreases s.len() - from,
{
    if from < 0 || from >= s.len() {
        None
    } else if s[from] == b {
        Some(from)
    } else {
        find_byte(s, from + 1, b)
    }
}

pub proof fn lemma_find_byte(s: Seq<u8>, from: int, b: u8)
    requires
        0 <= from,
    ensures
        find_byte(s, from, b) matches Some(i) ==> from <= i < s.len() && s[i] == b && (forall|
            j: int,
        | from <= j < i ==> s[j] != b),
        find_byte(s, from, b) is None ==> forall|j: int| from <= j < s.len() ==> s[j] != b,
    decreases s.len() - from,
{
    if 0 <= from < s.len() && s[from] != b {
        lemma_find_byte(s, from + 1, b);
    }
}

/// Finds the first `b` in `s` at or after `from`.
pub fn find_byte_from(s: &[u8], from: usize, b: u8) -> (r: Option<usize>)
    ensures
        match find_byte(s@, from as int, b) {
            Some(k) => r == Some(k as usize),
            None => r is None,
        },
{
    let mut i = from;
    while i < s.len()
        invariant
            from <= i,
            find_byte(s@, from as int, b) == find_byte(s@, i as int, b),
        decreases s.len() - i,
    {
        if s[i] == b {
            return Some(i);
        }
        i += 1;
    }
    None
}

/// The first index at or after `from` where `pat` occurs in `s`.
pub open spec fn find_bytes(s: Seq<u8>, pat: Seq<u8>, from: int) -> Option<int>
    decreases s.len() + 1 - from,
{
    if from < 0 || from + pat.len() > s.len() {
        None
    } else if s.subrange(from, from + pat.len()) == pat {
        Some(from)
    } else {
        find_bytes(s, pat, from + 1)
    }
}

pub proof fn lemma_find_bytes(s: Seq<u8>, pat: Seq<u8>, from: int)
    ensures
        find_bytes(s, pat, from) matches Some(k) ==> from <= k && k + pat.len() <= s.len()
            && s.subrange(k, k + pat.len()) == pat,
    decreases s.len() + 1 - from,
{
    if !(from < 0 || from + pat.len() > s.len()) && s.subrange(from, from + pat.len()) != pat {
        lemma_find_bytes(s, pat, from + 1);
    }
}

/// Finds the first occurrence of `pat` in `s` at or after `from`.
pub fn find_bytes_from(s: &[u8], pat: &[u8], from: usize) -> (r: Option<usize>)
    ensures
        match find_bytes(s@, pat@, from as int) {
            Some(k) => r == Some(k as usize) && from <= k && k + pat@.len() <= s.len(),
            None => r is None,
        },
{
    proof {
        lemma_find_bytes(s@, pat@, from as int);
    }
    if pat.len() > s.len() {
        return None;
    }
    let mut i = from;
    while i <= s.len() - pat.len()
        invariant
            from <= i,
            pat.len() <= s.len(),
            find_bytes(s@, pat@, from as int) == find_bytes(s@, pat@, i as int),
        decreases s.len() - i,
    {
        let mut j: usize = 0;
        let mut same = true;
        while j < pat.len()
            invariant
                j <= pat.len(),
                i + pat.len() <= s.len(),
                same == forall|m: int| 0 <= m < j ==> s@[i + m] == pat@[m],
            decreases pat.len() - j,
        {
            if s[i + j] != pat[j] {
                same = false;
            }
            j += 1;
        }
        if same {
            assert(s@.subrange(i as int, i + pat.len()) =~= pat@);
            return Some(i);
        } else {
            assert(s@.subrange(i as int, i + pat.len()) != pat@) by {
                let m = choose|m: int| 0 <= m < pat.len() && s@[i + m] != pat@[m];
                assert(s@.subrange(i as int, i + pat.len())[m] != pat@[m]);
            }
        }
        if i == s.len() - pat.len() {
            assert(find_bytes(s@, pat@, i + 1) == None::<int>);
            return None;
        }
        i += 1;
    }
    None
}

/// A byte with ASCII upper case letters mapped to lower case.
pub open spec fn ascii_lower(b: u8) -> u8 {
    if 65 <= b <= 90 {
        (b + 32) as u8
    } else {
        b
    }
}

/// Two byte strings are equal ignoring ASCII case, as
/// `str::eq_ignore_ascii_case` compares them.
pub open spec fn eq_ignore_ascii_case(a: Seq<u8>, b: Seq<u8>) -> bool {
    a.len() == b.len() && forall|i: int| 0 <= i < a.len() ==> ascii_lower(#[trigger] a[i]) == ascii_lower(b[i])
}

/// Whether two byte strings are equal ignoring ASCII case.
pub fn bytes_eq_ignore_ascii_case(a: &[u8], b: &[u8]) -> (r: bool)
    ensures
        r == eq_ignore_ascii_case(a@, b@),
{
    if a.len() != b.len() {
        return false;
    }
    let mut i: usize = 0;
    while i < a.len()
        invariant
            i <= a.len() == b.len(),
            forall|j: int| 0 <= j < i ==> ascii_lower(#[trigger] a@[j]) == ascii_lower(b@[j]),
        decreases a.len() - i,
    {
        let x = if 65 <= a[i] && a[i] <= 90 {
            a[i] + 32
        } else {
            a[i]
        };
        let y = if 65 <= b[i] && b[i] <= 90 {
            b[i] + 32
        } else {
            b[i]
        };
        if x != y {
            assert(ascii_lower(a@[i as int]) != ascii_lower(b@[i as int]));
            return false;
        }
        i += 1;
    }
    true
}

/// The value of `n as u64` in Rust: `n` taken modulo 2^64.
pub open spec fn wrap_u64(n: int) -> u64 {
    if n >= 0 {
        n as u64
    } else {
        (n + 0x1_0000_0000_0000_0000) as u64
    }
}

/// `n as u64`, computed without leaving the ranges of the types.
pub fn i64_as_u64(n: i64) -> (r: u64)
    ensures
        r == wrap_u64(n as int),
{
    if n >= 0 {
        n as u64
    } else {
        let m: i64 = -(n + 1);
        u64::MAX - (m as u64)
    }
}

/// Decimal text of a `u64`.
pub fn u64_decimal(n: u64) -> (r: Vec<u8>)
    ensures
        r@ == decimal(n as nat),
    decreases n,
{
    if n < 10 {
        let mut v = Vec::new();
        v.push(48u8 + n as u8);
        assert(v@ =~= decimal(n as nat));
        v
    } else {
        let mut v = u64_decimal(n / 10);
        v.push(48u8 + (n % 10) as u8);
        v
    }
}

/// Decimal text of an `i64`, with a leading `-` when negative.
pub fn i64_decimal(n: i64) -> (r: Vec<u8>)
    ensures
        r@ == signed_decimal(n as int),
{
    if n < 0 {
        let m: u64 = if n == i64::MIN {
            9223372036854775808u64
        } else {
            (-n) as u64
        };
        let d = u64_decimal(m);
        let mut v = Vec::new();
        v.push(45u8);
        let mut i: usize = 0;
        while i < d.len()
            invariant
                i <= d.len(),
                v@ =~= seq![45u8] + d@.take(i as int),
            decreases d.len() - i,
        {
            v.push(d[i]);
            i += 1;
        }
        assert(d@.take(d.len() as int) =~= d@);
        v
    } else {
        u64_decimal(n as u64)
    }
}

/// Parses `s` as Rust's `u64::from_str` would, with an upper bound `max`
/// (so the same routine serves `u16`, `u32` and `usize`).
#[verifier::spinoff_prover]
pub fn parse_unsigned_bytes(s: &[u8], max: u64) -> (r: Option<u64>)
    ensures
        match parse_unsigned(s@, max as nat) {
            Some(v) => r == Some(v as u64),
            None => r is None,
        },
{
    if s.len() == 0 {
        return None;
    }
    let start: usize = if s[0] == 43u8 {
        1
    } else {
        0
    };
    let ghost body = if s@[0] == 43u8 {
        s@.drop_first()
    } else {
        s@
    };
    assert(body =~= s@.subrange(start as int, s@.len() as int));
    if start == s.len() {
        return None;
    }
    let mut acc: u64 = 0;
    let mut i: usize = start;
    while i < s.len()
        invariant
            start <= i <= s.len(),
            s@.len() > 0,
            body == (if s@[0] == 43u8 {
                s@.drop_first()
            } else {
                s@
            }),
            body =~= s@.subrange(start as int, s@.len() as int),
            all_digits(body.take(i - start)),
            acc as nat == digits_value(body.take(i - start)),
            acc <= max,
        decreases s.len() - i,
    {
        let b = s[i];
        let ghost k = i - start;
        assert(body[k] == b);
        assert(body.take(k + 1).drop_last() =~= body.take(k));
        if b < 48u8 || b > 57u8 {
            assert(!is_digit(body[k]));
            assert(!all_digits(body));
            return None;
        }
        let d: u64 = (b - 48u8) as u64;
        if d > max || acc > (max - d) / 10 {
            proof {
                assert(digits_value(body.take(k + 1)) == acc * 10 + d);
                assert(acc * 10 + d > max) by (nonlinear_arith)
                    requires
                        d > max || acc > (max - d) / 10,
                        d <= 9,
                ;
                if all_digits(body) {
                    lemma_digits_value_prefix(body, k + 1);
                }
            }
            return None;
        }
        acc = acc * 10 + d;
        i += 1;
        assert(all_digits(body.take(i - start))) by {
            assert forall|j: int| 0 <= j < body.take(i - start).len() implies #[trigger] is_digit(
                body.take(i - start)[j],
            ) by {
                if j < k {
                    assert(body.take(i - start)[j] == body.take(k)[j]);
                }
            }
        }
    }
    assert(body.take(i - start) =~= body);
    Some(acc)
}

/// The value of a hexadecimal digit (either case), or -1.
pub open spec fn hex_val(b: u8) -> int {
    if 48 <= b <= 57 {
        b - 48
    } else if 97 <= b <= 102 {
        b - 87
    } else if 65 <= b <= 70 {
        b - 55
    } else {
        -1
    }
}

/// Every byte is a hexadecimal digit.
pub open spec fn all_hex(s: Seq<u8>) -> bool {
    forall|i: int| 0 <= i < s.len() ==> hex_val(#[trigger] s[i]) >= 0
}

/// The number written by a string of hexadecimal digits.
pub open spec fn hex_value(s: Seq<u8>) -> nat
    decreases s.len(),
{
    if s.len() == 0 {
        0
    } else {
        hex_value(s.drop_last()) * 16 + hex_val(s.last()) as nat
    }
}

/// Rust's `from_str_radix(s, 16)` for an unsigned type whose maximum is
/// `max`: an optional `+`, then one or more hexadecimal digits, in range.
pub open spec fn parse_hex_unsigned(s: Seq<u8>, max: nat) -> Option<nat> {
    if s.len() == 0 {
        None
    } else if (s[0] == 43u8 || s[0] == 45u8) && s.len() == 1 {
        None
    } else {
        let body = if s[0] == 43u8 {
            s.drop_first()
        } else {
            s
        };
        if !all_hex(body) || hex_value(body) > max {
            None
        } else {
            Some(hex_value(body))
        }
    }
}

pub proof fn lemma_hex_value_prefix(s: Seq<u8>, k: int)
    requires
        0 <= k <= s.len(),
    ensures
        hex_value(s.take(k)) <= hex_value(s),
    decreases s.len(),
{
    if k < s.len() {
        lemma_hex_value_prefix(s.drop_last(), k);
        assert(s.drop_last().take(k) =~= s.take(k));
    } else {
        assert(s.take(k) =~= s);
    }
}

/// Parses `s` as `usize::from_str_radix(s, 16)` does.
pub fn parse_hex_usize(s: &[u8]) -> (r: Option<usize>)
    ensures
        match parse_hex_unsigned(s@, usize::MAX as nat) {
            Some(v) => r == Some(v as usize),
            None => r is None,
        },
{
    if s.len() == 0 {
        return None;
    }
    if (s[0] == 43u8 || s[0] == 45u8) && s.len() == 1 {
        return None;
    }
    let start: usize = if s[0] == 43u8 {
        1
    } else {
        0
    };
    let ghost body = if s@[0] == 43u8 {
        s@.drop_first()
    } else {
        s@
    };
    assert(body =~= s@.subrange(start as int, s@.len() as int));
    let mut acc: usize = 0;
    let mut i: usize = start;
    while i < s.len()
        invariant
            start <= i <= s.len(),
            s@.len() > 0,
            body == (if s@[0] == 43u8 {
                s@.drop_first()
            } else {
                s@
            }),
            body =~= s@.subrange(start as int, s@.len() as int),
            all_hex(body.take(i - start)),
            acc as nat == hex_value(body.take(i - start)),
        decreases s.len() - i,
    {
        let b = s[i];
        let ghost k = i - start;
        assert(body[k] == b);
        assert(body.take(k + 1).drop_last() =~= body.take(k));
        let d: usize = if 48u8 <= b && b <= 57u8 {
            (b - 48u8) as usize
        } else if 97u8 <= b && b <= 102u8 {
            (b - 87u8) as usize
        } else if 65u8 <= b && b <= 70u8 {
            (b - 55u8) as usize
        } else {
            assert(hex_val(body[k]) < 0);
            assert(!all_hex(body));
            return None;
        };
        assert(d as int == hex_val(b));
        if acc > (usize::MAX - d) / 16 {
            proof {
                assert(hex_value(body.take(k + 1)) == acc * 16 + d);
                assert(acc * 16 + d > usize::MAX) by (nonlinear_arith)
                    requires
                        acc > (usize::MAX - d) / 16,
                        d <= 15,
                ;
                if all_hex(body) {
                    lemma_hex_value_prefix(body, k + 1);
                }
            }
            return None;
        }
        assert(acc * 16 + d <= usize::MAX) by (nonlinear_arith)
            requires
                acc <= (usize::MAX - d) / 16,
                d <= 15,
        ;
        acc = acc * 16 + d;
        i += 1;
        assert(all_hex(body.take(i - start))) by {
            assert forall|j: int| 0 <= j < body.take(i - start).len() implies hex_val(
                #[trigger] body.take(i - start)[j],
            ) >= 0 by {
                if j < k {
                    assert(body.take(i - start)[j] == body.take(k)[j]);
                }
            }
        }
    }
    assert(body.take(i - start) =~= body);
    Some(acc)
}

/// Parses `s` as Rust's `i64::from_str` would.
pub fn parse_i64_bytes(s: &[u8]) -> (r: Option<i64>)
    ensures
        match parse_signed(s@, i64::MIN as int, i64::MAX as nat) {
            Some(v) => r == Some(v as i64),
            None => r is None,
        },
{
    if s.len() == 0 {
        return None;
    }
    if s[0] == 45u8 {
        let body = slice_from(s, 1);
        assert(body@ =~= s@.drop_first());
        if body.len() == 0 || body[0] == 43u8 {
            assert(!is_digit(body@[0]) || body@.len() == 0);
            return None;
        }
        match parse_unsigned_bytes(body, 9223372036854775808u64) {
            None => None,
            Some(m) => {
                assert(body@ =~= s@.drop_first());
                if m == 9223372036854775808u64 {
                    Some(i64::MIN)
                } else {
                    Some(-(m as i64))
                }
            },
        }
    } else {
        match parse_unsigned_bytes(s, 9223372036854775807u64) {
            None => None,
            Some(v) => Some(v as i64),
        }
    }
}

/// The suffix of a slice starting at `start`.
pub fn slice_from(s: &[u8], start: usize) -> (r: &[u8])
    requires
        start <= s@.len(),
    ensures
        r@ == s@.subrange(start as int, s@.len() as int),
{
    &s[start..s.len()]
}

/// The part of a slice between `start` and `end`.
pub fn slice_range(s: &[u8], start: usize, end: usize) -> (r: &[u8])
    requires
        start <= end <= s@.len(),
    ensures
        r@ == s@.subrange(start as int, end as int),
{
    &s[start..end]
}

/// Copies a slice into a new vector.
pub fn slice_to_vec(s: &[u8]) -> (r: Vec<u8>)
    ensures
        r@ == s@,
{
    let mut v: Vec<u8> = Vec::new();
    let mut i: usize = 0;
    while i < s.len()
        invariant
            i <= s.len(),
            v@ =~= s@.take(i as int),
        decreases s.len() - i,
    {
        v.push(s[i]);
        i += 1;
    }
    assert(s@.take(s.len() as int) =~= s@);
    v
}

/// Appends all bytes of `s` to `v`.
pub fn append_bytes(v: &mut Vec<u8>, s: &[u8])
    ensures
        final(v)@ == old(v)@ + s@,
{
    let ghost v0 = v@;
    let mut i: usize = 0;
    while i < s.len()
        invariant
            i <= s.len(),
            v@ =~= v0 + s@.take(i as int),
        decreases s.len() - i,
    {
        v.push(s[i]);
        i += 1;
    }
    assert(s@.take(s.len() as int) =~= s@);
}

// ---------------------------------------------------------------------------
// ASCII and UTF-8
// ---------------------------------------------------------------------------

/// Every byte is ASCII.
pub open spec fn all_ascii(s: Seq<u8>) -> bool {
    forall|i: int| 0 <= i < s.len() ==> (#[trigger] s[i]) < 128u8
}

/// The characters of an ASCII byte string, one per byte.
pub open spec fn ascii_chars(s: Seq<u8>) -> Seq<char> {
    s.map_values(|b: u8| b as char)
}

/// ASCII text is valid UTF-8 and decodes to one character per byte.
pub proof fn lemma_ascii_utf8(s: Seq<u8>)
    requires
        all_ascii(s),
    ensures
        valid_utf8(s),
        decode_utf8(s) == ascii_chars(s),
    decreases s.len(),
{
    if s.len() > 0 {
        let rest = s.drop_first();
        let b = s[0];
        assert(b < 128u8 ==> b & 0x7f == b) by (bit_vector);
        assert(pop_first_scalar(s) =~= rest);
        assert(decode_first_scalar(s) == b as u32);
        lemma_ascii_utf8(rest);
        assert(ascii_chars(s) =~= seq![s[0] as char] + ascii_chars(rest));
    } else {
        assert(ascii_chars(s) =~= Seq::<char>::empty());
    }
}

/// The message of the error `std::str::from_utf8` gives for invalid UTF-8.
pub uninterp spec fn utf8_error_message(b: Seq<u8>) -> Seq<char>;

/// `std::str::from_utf8`: the text of `b` when it is valid UTF-8, else the
/// text of the error (`Utf8Error`'s `Display`), which the contract names
/// without describing.
#[verifier::external_body]
pub(crate) fn str_from_utf8(b: &[u8]) -> (r: Result<&str, String>)
    ensures
        r is Ok <==> valid_utf8(b@),
        r matches Ok(s) ==> s@ == decode_utf8(b@),
        r matches Err(m) ==> m@ == utf8_error_message(b@),
{
    match std::str::from_utf8(b) {
        Ok(s) => Ok(s),
        Err(e) => Err(e.to_string()),
    }
}

/// The text `format!("{:?}", s)` gives for a string: `s` quoted, with
/// quotes, backslashes and unprintable characters escaped.
pub uninterp spec fn debug_text(s: Seq<char>) -> Seq<char>;

/// `<str as Debug>::fmt`, through `format!("{:?}", s)`. The contract names
/// the result and claims nothing of its characters.
#[verifier::external_body]
pub(crate) fn str_debug(s: &str) -> (r: String)
    ensures
        r@ == debug_text(s@),
{
    format!("{:?}", s)
}

/// `String::push`: appends one character.
#[verifier::external_body]
pub(crate) fn push_char(s: &mut String, c: char)
    ensures
        final(s)@ == old(s)@.push(c),
{
    s.push(c)
}

} // verus!

verus! {

/// Lowercase hexadecimal digit of a value below 16.
pub open spec fn hex_digit_lower(d: nat) -> u8 {
    if d < 10 {
        (48 + d) as u8
    } else {
        (87 + d) as u8
    }
}

/// Uppercase hexadecimal digit of a value below 16.
pub open spec fn hex_digit_upper(d: nat) -> u8 {
    if d < 10 {
        (48 + d) as u8
    } else {
        (55 + d) as u8
    }
}

/// A byte as `format!("{:#04x}", b)` writes it: `0x` and two lowercase digits.
pub open spec fn byte_hex_prefixed(b: u8) -> Seq<char> {
    seq!['0', 'x', hex_digit_lower((b / 16) as nat) as char, hex_digit_lower((b % 16) as nat) as char]
}

/// Appends the characters of an ASCII byte string.
pub fn push_ascii(s: &mut String, b: &[u8])
    requires
        all_ascii(b@),
    ensures
        final(s)@ == old(s)@ + ascii_chars(b@),
{
    let ghost s0 = s@;
    let mut i: usize = 0;
    while i < b.len()
        invariant
            i <= b.len(),
            s@ =~= s0 + ascii_chars(b@.take(i as int)),
        decreases b.len() - i,
    {
        push_char(s, b[i] as char);
        i += 1;
    }
    assert(b@.take(b.len() as int) =~= b@);
}

/// Appends the decimal text of `n`.
pub fn push_decimal(s: &mut String, n: u64)
    ensures
        final(s)@ == old(s)@ + ascii_chars(decimal(n as nat)),
{
    let d = u64_decimal(n);
    proof {
        lemma_decimal(n as nat);
        assert forall|i: int| 0 <= i < d@.len() implies (#[trigger] d@[i]) < 128u8 by {
            assert(is_digit(d@[i]));
        }
    }
    push_ascii(s, d.as_slice());
}

/// The decimal text of `n`, as `n.to_string()` writes it.
pub fn decimal_string(n: u64) -> (r: String)
    ensures
        r@ == ascii_chars(decimal(n as nat)),
{
    let mut s = String::new();
    push_decimal(&mut s, n);
    s
}

/// Parses a string as `u16::from_str` does.
pub fn parse_u16(s: &str) -> (r: Option<u16>)
    ensures
        match parse_unsigned(s.spec_bytes(), 65535) {
            Some(v) => r == Some(v as u16),
            None => r is None,
        },
{
    match parse_unsigned_bytes(s.as_bytes(), 65535) {
        Some(v) => Some(v as u16),
        None => None,
    }
}

/// Lowercase hexadecimal digit.
pub fn hex_lower(d: u8) -> (r: u8)
    requires
        d < 16,
    ensures
        r == hex_digit_lower(d as nat),
{
    if d < 10 {
        48 + d
    } else {
        87 + d
    }
}

/// Uppercase hexadecimal digit.
pub fn hex_upper(d: u8) -> (r: u8)
    requires
        d < 16,
    ensures
        r == hex_digit_upper(d as nat),
{
    if d < 10 {
        48 + d
    } else {
        55 + d
    }
}

/// Appends `0x` and the two lowercase hexadecimal digits of `b`.
pub fn push_byte_hex_prefixed(s: &mut String, b: u8)
    ensures
        final(s)@ == old(s)@ + byte_hex_prefixed(b),
{
    let ghost s0 = s@;
    push_char(s, '0');
    push_char(s, 'x');
    push_char(s, hex_lower(b / 16) as char);
    push_char(s, hex_lower(b % 16) as char);
    assert(s@ =~= s0 + byte_hex_prefixed(b));
}

} // verus!
