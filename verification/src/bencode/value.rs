//! BEncoded values and their mathematical model.
use vstd::prelude::*;

use crate::text::str_from_utf8;
use vstd::string::StringSliceAdditionalSpecFns;
use vstd::utf8::{decode_utf8, valid_utf8};

verus! {

broadcast use vstd::std_specs::vec::group_vec_axioms;

/// A BEncoded value.
///
/// BEncoding supports four value types: byte strings (arbitrary binary
/// data), signed 64-bit integers, lists, and dictionaries whose keys are
/// byte strings. Dictionary entries are kept in the order of their keys; a
/// well-formed dictionary (see [`Bencoded::wf`]) has strictly increasing keys.
#[derive(Debug, PartialEq, Eq)]
pub enum BValue {
    /// A byte string. May contain arbitrary binary data.
    String(Vec<u8>),
    /// A signed 64-bit integer.
    Integer(i64),
    /// An ordered list of BEncoded values.
    List(Vec<BValue>),
    /// A dictionary: (key, value) entries in increasing key order.
    Dict(Vec<(Vec<u8>, BValue)>),
}

/// The mathematical model of a [`BValue`].
pub enum Bencoded {
    Str(Seq<u8>),
    Int(int),
    List(Seq<Bencoded>),
    Dict(Seq<(Seq<u8>, Bencoded)>),
}

/// Strict lexicographic order on byte strings (the order of `Vec<u8>`).
pub open spec fn lex_lt(a: Seq<u8>, b: Seq<u8>) -> bool
    decreases a.len(),
{
    if a.len() == 0 {
        b.len() > 0
    } else if b.len() == 0 {
        false
    } else if a[0] < b[0] {
        true
    } else if a[0] > b[0] {
        false
    } else {
        lex_lt(a.drop_first(), b.drop_first())
    }
}

/// The keys of a dictionary model strictly increase.
pub open spec fn keys_increasing(entries: Seq<(Seq<u8>, Bencoded)>) -> bool {
    forall|i: int| 0 <= i < entries.len() - 1 ==> lex_lt(#[trigger] entries[i].0, entries[i + 1].0)
}

impl Bencoded {
    /// Well-formed: integers fit in `i64`, strings fit in memory, and every
    /// dictionary has strictly increasing keys.
    pub open spec fn wf(self) -> bool
        decreases self,
    {
        match self {
            Bencoded::Str(b) => b.len() <= usize::MAX,
            Bencoded::Int(n) => i64::MIN <= n <= i64::MAX,
            Bencoded::List(items) => forall|i: int| 0 <= i < items.len() ==> (#[trigger] items[i]).wf(),
            Bencoded::Dict(entries) => keys_increasing(entries) && forall|i: int|
                0 <= i < entries.len() ==> (#[trigger] entries[i]).0.len() <= usize::MAX
                    && entries[i].1.wf(),
        }
    }
}

impl Bencoded {
    /// Whether the value's lists and dictionaries, standing inside `depth`
    /// enclosing ones, nest no deeper than the 128 levels decoding accepts.
    pub open spec fn fits_depth(self, depth: int) -> bool
        decreases self,
    {
        match self {
            Bencoded::Str(_) => true,
            Bencoded::Int(_) => true,
            Bencoded::List(items) => depth < 128 && forall|i: int|
                0 <= i < items.len() ==> (#[trigger] items[i]).fits_depth(depth + 1),
            Bencoded::Dict(entries) => depth < 128 && forall|i: int|
                0 <= i < entries.len() ==> (#[trigger] entries[i]).1.fits_depth(depth + 1),
        }
    }
}

impl BValue {
    /// The mathematical model of this value.
    pub open spec fn model(self) -> Bencoded
        decreases self,
    {
        match self {
            BValue::String(b) => Bencoded::Str(b@),
            BValue::Integer(n) => Bencoded::Int(n as int),
            BValue::List(items) => Bencoded::List(Self::models(items@)),
            BValue::Dict(entries) => Bencoded::Dict(Self::entry_models(entries@)),
        }
    }

    pub open spec fn models(items: Seq<BValue>) -> Seq<Bencoded>
        decreases items,
    {
        if items.len() == 0 {
            Seq::empty()
        } else {
            Self::models(items.drop_last()).push(items.last().model())
        }
    }

    pub open spec fn entry_models(entries: Seq<(Vec<u8>, BValue)>) -> Seq<(Seq<u8>, Bencoded)>
        decreases entries,
    {
        if entries.len() == 0 {
            Seq::empty()
        } else {
            Self::entry_models(entries.drop_last()).push((entries.last().0@, entries.last().1.model()))
        }
    }
}

/// The value of the first entry whose key is `key`.
pub open spec fn dict_lookup(entries: Seq<(Seq<u8>, Bencoded)>, key: Seq<u8>) -> Option<Bencoded>
    decreases entries.len(),
{
    if entries.len() == 0 {
        None
    } else if entries[0].0 == key {
        Some(entries[0].1)
    } else {
        dict_lookup(entries.drop_first(), key)
    }
}

impl Bencoded {
    /// The bytes of a byte string.
    pub open spec fn bytes(self) -> Option<Seq<u8>> {
        match self {
            Bencoded::Str(b) => Some(b),
            _ => None,
        }
    }

    /// The text of a byte string holding valid UTF-8.
    pub open spec fn text(self) -> Option<Seq<char>> {
        match self {
            Bencoded::Str(b) => if valid_utf8(b) {
                Some(decode_utf8(b))
            } else {
                None
            },
            _ => None,
        }
    }

    /// The value of an integer.
    pub open spec fn integer(self) -> Option<int> {
        match self {
            Bencoded::Int(n) => Some(n),
            _ => None,
        }
    }

    /// The items of a list.
    pub open spec fn list(self) -> Option<Seq<Bencoded>> {
        match self {
            Bencoded::List(items) => Some(items),
            _ => None,
        }
    }

    /// The entries of a dictionary.
    pub open spec fn dict(self) -> Option<Seq<(Seq<u8>, Bencoded)>> {
        match self {
            Bencoded::Dict(entries) => Some(entries),
            _ => None,
        }
    }

    /// The value under `key` in a dictionary.
    pub open spec fn get(self, key: Seq<u8>) -> Option<Bencoded> {
        match self {
            Bencoded::Dict(entries) => dict_lookup(entries, key),
            _ => None,
        }
    }
}

pub proof fn lemma_models(items: Seq<BValue>)
    ensures
        BValue::models(items).len() == items.len(),
        forall|i: int| 0 <= i < items.len() ==> #[trigger] BValue::models(items)[i] == items[i].model(),
    decreases items.len(),
{
    if items.len() > 0 {
        lemma_models(items.drop_last());
    }
}

pub proof fn lemma_entry_models(entries: Seq<(Vec<u8>, BValue)>)
    ensures
        BValue::entry_models(entries).len() == entries.len(),
        forall|i: int|
            0 <= i < entries.len() ==> #[trigger] BValue::entry_models(entries)[i] == (
                entries[i].0@,
                entries[i].1.model(),
            ),
    decreases entries.len(),
{
    if entries.len() > 0 {
        lemma_entry_models(entries.drop_last());
    }
}

impl BValue {
    /// Returns the value as a byte slice if it is a `String`, or `None` otherwise.
    pub fn as_bytes(&self) -> (r: Option<&[u8]>)
        ensures
            match self.model().bytes() {
                Some(b) => r matches Some(x) && x@ == b,
                None => r is None,
            },
    {
        match self {
            BValue::String(b) => Some(b.as_slice()),
            _ => None,
        }
    }

    /// Returns the value as a UTF-8 string if it is a `String` with valid UTF-8, or `None`.
    pub fn as_str(&self) -> (r: Option<&str>)
        ensures
            match self.model().text() {
                Some(t) => r matches Some(x) && x@ == t,
                None => r is None,
            },
    {
        match self.as_bytes() {
            Some(b) => match str_from_utf8(b) {
                Ok(s) => Some(s),
                Err(_) => None,
            },
            None => None,
        }
    }

    /// Returns the integer value if this is an `Integer`, or `None` otherwise.
    pub fn as_integer(&self) -> (r: Option<i64>)
        ensures
            match self.model().integer() {
                Some(n) => r matches Some(k) && k as int == n,
                None => r is None,
            },
    {
        match self {
            BValue::Integer(n) => Some(*n),
            _ => None,
        }
    }

    /// Returns the items if this is a `List`, or `None` otherwise.
    pub fn as_list(&self) -> (r: Option<&[BValue]>)
        ensures
            match self {
                BValue::List(items) => r matches Some(x) && x@ == items@,
                _ => r is None,
            },
            r matches Some(x) ==> self.model().list() == Some(BValue::models(x@)),
    {
        match self {
            BValue::List(l) => Some(l.as_slice()),
            _ => None,
        }
    }

    /// Returns the entries if this is a `Dict`, or `None` otherwise.
    pub fn as_dict(&self) -> (r: Option<&Vec<(Vec<u8>, BValue)>>)
        ensures
            match self {
                BValue::Dict(entries) => r == Some(entries),
                _ => r is None,
            },
            r matches Some(x) ==> self.model().dict() == Some(BValue::entry_models(x@)),
    {
        match self {
            BValue::Dict(d) => Some(d),
            _ => None,
        }
    }

    /// Looks up a key (given as bytes) in this value if it is a dictionary.
    pub fn dict_get_bytes(&self, key: &[u8]) -> (r: Option<&BValue>)
        ensures
            match self.model().get(key@) {
                Some(v) => r matches Some(x) && x.model() == v,
                None => r is None,
            },
    {
        match self {
            BValue::Dict(entries) => {
                let ghost ms = BValue::entry_models(entries@);
                proof {
                    lemma_entry_models(entries@);
                }
                let mut i: usize = 0;
                assert(ms.subrange(0, ms.len() as int) =~= ms);
                while i < entries.len()
                    invariant
                        i <= entries.len(),
                        ms == BValue::entry_models(entries@),
                        ms.len() == entries@.len(),
                        forall|j: int| 0 <= j < entries.len() ==> #[trigger] ms[j] == (
                            entries@[j].0@,
                            entries@[j].1.model(),
                        ),
                        self.model().get(key@) == dict_lookup(
                            ms.subrange(i as int, ms.len() as int),
                            key@,
                        ),
                    decreases entries.len() - i,
                {
                    let ghost rest = ms.subrange(i as int, ms.len() as int);
                    assert(rest.drop_first() =~= ms.subrange(i + 1, ms.len() as int));
                    if bytes_eq(entries[i].0.as_slice(), key) {
                        return Some(&entries[i].1);
                    }
                    i += 1;
                }
                None
            },
            _ => None,
        }
    }

    /// Looks up a key in this value if it is a dictionary.
    /// The key is treated as UTF-8 bytes.
    pub fn dict_get(&self, key: &str) -> (r: Option<&BValue>)
        ensures
            match self.model().get(key.spec_bytes()) {
                Some(v) => r matches Some(x) && x.model() == v,
                None => r is None,
            },
    {
        self.dict_get_bytes(key.as_bytes())
    }
}

/// Byte-string equality.
pub fn bytes_eq(a: &[u8], b: &[u8]) -> (r: bool)
    ensures
        r == (a@ == b@),
{
    if a.len() != b.len() {
        return false;
    }
    let mut i: usize = 0;
    while i < a.len()
        invariant
            i <= a.len(),
            a.len() == b.len(),
            forall|j: int| 0 <= j < i ==> a@[j] == b@[j],
        decreases a.len() - i,
    {
        if a[i] != b[i] {
            return false;
        }
        i += 1;
    }
    assert(a@ =~= b@);
    true
}

/// The items of a well-formed list, and the values of a well-formed
/// dictionary, are well formed.
pub proof fn lemma_wf_children(v: BValue)
    requires
        v.model().wf(),
    ensures
        v matches BValue::List(items) ==> forall|i: int|
            0 <= i < items@.len() ==> (#[trigger] items@[i]).model().wf(),
        v matches BValue::Dict(entries) ==> forall|i: int|
            0 <= i < entries@.len() ==> (#[trigger] entries@[i]).1.model().wf(),
{
    match v {
        BValue::List(items) => {
            lemma_models(items@);
            assert forall|i: int| 0 <= i < items@.len() implies (#[trigger] items@[i]).model().wf() by {
                let ms = BValue::models(items@);
                assert(ms[i] == items@[i].model());
                if let Bencoded::List(xs) = v.model() {
                    assert(xs == ms);
                    assert(xs[i].wf());
                }
            }
        },
        BValue::Dict(entries) => {
            lemma_entry_models(entries@);
            assert forall|i: int| 0 <= i < entries@.len() implies (#[trigger] entries@[i]).1.model().wf() by {
                assert(BValue::entry_models(entries@)[i] == (entries@[i].0@, entries@[i].1.model()));
            }
        },
        _ => {},
    }
}

} // verus!
