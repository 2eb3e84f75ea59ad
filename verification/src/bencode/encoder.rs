//! BEncode encoding.
use vstd::prelude::*;

use super::value::{lemma_wf_children, BValue, Bencoded};
use crate::text::{append_bytes, decimal, i64_decimal, signed_decimal, u64_decimal};

verus! {

broadcast use vstd::std_specs::vec::group_vec_axioms;

/// A byte string as BEncode writes it: decimal length, `:`, the bytes.
pub open spec fn encode_bytes(b: Seq<u8>) -> Seq<u8> {
    decimal(b.len()) + seq![58u8] + b
}

impl Bencoded {
    /// The BEncoding of a value.
    pub open spec fn encode(self) -> Seq<u8>
        decreases self,
    {
        match self {
            Bencoded::Str(b) => encode_bytes(b),
            Bencoded::Int(n) => seq![105u8] + signed_decimal(n) + seq![101u8],
            Bencoded::List(items) => seq![108u8] + Self::encode_items(items) + seq![101u8],
            Bencoded::Dict(entries) => seq![100u8] + Self::encode_entries(entries) + seq![101u8],
        }
    }

    /// The BEncodings of list items, one after the other.
    pub open spec fn encode_items(items: Seq<Bencoded>) -> Seq<u8>
        decreases items,
    {
        if items.len() == 0 {
            Seq::empty()
        } else {
            items[0].encode() + Self::encode_items(items.drop_first())
        }
    }

    /// The BEncodings of dictionary entries (key, then value), one after the
    /// other.
    pub open spec fn encode_entries(entries: Seq<(Seq<u8>, Bencoded)>) -> Seq<u8>
        decreases entries,
    {
        if entries.len() == 0 {
            Seq::empty()
        } else {
            encode_bytes(entries[0].0) + entries[0].1.encode() + Self::encode_entries(
                entries.drop_first(),
            )
        }
    }
}

pub proof fn lemma_encode_items_push(items: Seq<Bencoded>, v: Bencoded)
    ensures
        Bencoded::encode_items(items.push(v)) == Bencoded::encode_items(items) + v.encode(),
    decreases items.len(),
{
    if items.len() == 0 {
        assert(items.push(v).drop_first() =~= Seq::<Bencoded>::empty());
        assert(Bencoded::encode_items(Seq::<Bencoded>::empty()) =~= Seq::<u8>::empty());
        assert(items.push(v)[0] == v);
        assert(Bencoded::encode_items(items.push(v)) =~= v.encode());
    } else {
        lemma_encode_items_push(items.drop_first(), v);
        assert(items.push(v).drop_first() =~= items.drop_first().push(v));
        assert(Bencoded::encode_items(items.push(v)) =~= Bencoded::encode_items(items) + v.encode());
    }
}

pub proof fn lemma_encode_entries_push(entries: Seq<(Seq<u8>, Bencoded)>, e: (Seq<u8>, Bencoded))
    ensures
        Bencoded::encode_entries(entries.push(e)) == Bencoded::encode_entries(entries)
            + encode_bytes(e.0) + e.1.encode(),
    decreases entries.len(),
{
    if entries.len() == 0 {
        assert(entries.push(e).drop_first() =~= Seq::<(Seq<u8>, Bencoded)>::empty());
        assert(Bencoded::encode_entries(Seq::<(Seq<u8>, Bencoded)>::empty()) =~= Seq::<u8>::empty());
        assert(entries.push(e)[0] == e);
        assert(Bencoded::encode_entries(entries.push(e)) =~= encode_bytes(e.0) + e.1.encode());
    } else {
        lemma_encode_entries_push(entries.drop_first(), e);
        assert(entries.push(e).drop_first() =~= entries.drop_first().push(e));
        assert(Bencoded::encode_entries(entries.push(e)) =~= Bencoded::encode_entries(entries)
            + encode_bytes(e.0) + e.1.encode());
    }
}

/// Encodes a `BValue` into its BEncoded byte representation. The value
/// must be well formed: in particular every dictionary's keys strictly
/// increase, as BEncode requires.
pub fn encode(value: &BValue) -> (r: Vec<u8>)
    requires
        value.model().wf(),
    ensures
        r@ == value.model().encode(),
{
    let mut buf = Vec::new();
    encode_into(value, &mut buf);
    assert(buf@ =~= value.model().encode());
    buf
}

fn push_encoded_bytes(bytes: &Vec<u8>, buf: &mut Vec<u8>)
    ensures
        final(buf)@ == old(buf)@ + encode_bytes(bytes@),
{
    let len_text = u64_decimal(bytes.len() as u64);
    append_bytes(buf, len_text.as_slice());
    buf.push(58u8);
    append_bytes(buf, bytes.as_slice());
    assert(final(buf)@ =~= old(buf)@ + encode_bytes(bytes@));
}

/// Encodes a well-formed `BValue` into an existing byte buffer.
pub fn encode_into(value: &BValue, buf: &mut Vec<u8>)
    requires
        value.model().wf(),
    ensures
        final(buf)@ == old(buf)@ + value.model().encode(),
    decreases value,
{
    let ghost b0 = buf@;
    match value {
        BValue::String(bytes) => {
            push_encoded_bytes(bytes, buf);
        },
        BValue::Integer(n) => {
            buf.push(105u8);
            let text = i64_decimal(*n);
            append_bytes(buf, text.as_slice());
            buf.push(101u8);
            assert(buf@ =~= b0 + value.model().encode());
        },
        BValue::List(items) => {
            buf.push(108u8);
            let mut i: usize = 0;
            assert(items@.take(0) =~= Seq::<BValue>::empty());
            while i < items.len()
                invariant
                    i <= items.len(),
                    *value == BValue::List(*items),
                    value.model().wf(),
                    buf@ =~= b0 + seq![108u8] + Bencoded::encode_items(
                        BValue::models(items@.take(i as int)),
                    ),
                decreases items.len() - i,
            {
                proof {
                    assert(decreases_to!(*value => (*value)->List_0));
                    assert(decreases_to!(*items => items[i as int]));
                    assert(decreases_to!(value => items[i as int]));
                    lemma_wf_children(*value);
                }
                encode_into(&items[i], buf);
                proof {
                    assert(items@.take(i + 1).drop_last() =~= items@.take(i as int));
                    lemma_encode_items_push(
                        BValue::models(items@.take(i as int)),
                        items@[i as int].model(),
                    );
                }
                i += 1;
            }
            assert(items@.take(items.len() as int) =~= items@);
            buf.push(101u8);
            assert(buf@ =~= b0 + value.model().encode());
        },
        BValue::Dict(entries) => {
            buf.push(100u8);
            let mut i: usize = 0;
            assert(entries@.take(0) =~= Seq::<(Vec<u8>, BValue)>::empty());
            while i < entries.len()
                invariant
                    i <= entries.len(),
                    *value == BValue::Dict(*entries),
                    value.model().wf(),
                    buf@ =~= b0 + seq![100u8] + Bencoded::encode_entries(
                        BValue::entry_models(entries@.take(i as int)),
                    ),
                decreases entries.len() - i,
            {
                push_encoded_bytes(&entries[i].0, buf);
                proof {
                    assert(decreases_to!(*value => (*value)->Dict_0));
                    assert(decreases_to!(*entries => entries[i as int]));
                    assert(decreases_to!(entries[i as int] => entries[i as int].1));
                    assert(decreases_to!(value => entries[i as int].1));
                    lemma_wf_children(*value);
                }
                encode_into(&entries[i].1, buf);
                proof {
                    assert(entries@.take(i + 1).drop_last() =~= entries@.take(i as int));
                    lemma_encode_entries_push(
                        BValue::entry_models(entries@.take(i as int)),
                        (entries@[i as int].0@, entries@[i as int].1.model()),
                    );
                }
                i += 1;
            }
            assert(entries@.take(entries.len() as int) =~= entries@);
            buf.push(101u8);
            assert(buf@ =~= b0 + value.model().encode());
        },
    }
}

} // verus!
