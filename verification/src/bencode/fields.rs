//! Typed access to the fields of a dictionary.
use vstd::prelude::*;
use vstd::string::StringSliceAdditionalSpecFns;

use super::value::{BValue, Bencoded};

verus! {

/// The text under `key` in a dictionary, when it is a UTF-8 byte string.
pub open spec fn field_text(v: Bencoded, key: Seq<u8>) -> Option<Seq<char>> {
    match v.get(key) {
        Some(x) => x.text(),
        None => None,
    }
}

/// The bytes under `key` in a dictionary, when it is a byte string.
pub open spec fn field_bytes(v: Bencoded, key: Seq<u8>) -> Option<Seq<u8>> {
    match v.get(key) {
        Some(x) => x.bytes(),
        None => None,
    }
}

/// The integer under `key` in a dictionary.
pub open spec fn field_int(v: Bencoded, key: Seq<u8>) -> Option<int> {
    match v.get(key) {
        Some(x) => x.integer(),
        None => None,
    }
}

/// The list under `key` in a dictionary.
pub open spec fn field_list(v: Bencoded, key: Seq<u8>) -> Option<Seq<Bencoded>> {
    match v.get(key) {
        Some(x) => x.list(),
        None => None,
    }
}

/// The text under `key`, as a new string.
pub fn text_field(v: &BValue, key: &str) -> (r: Option<String>)
    ensures
        match field_text(v.model(), key.spec_bytes()) {
            Some(t) => r matches Some(s) && s@ == t,
            None => r is None,
        },
{
    match v.dict_get(key) {
        Some(x) => match x.as_str() {
            Some(s) => Some(String::from_str(s)),
            None => None,
        },
        None => None,
    }
}

/// The bytes under `key`.
pub fn bytes_field<'a>(v: &'a BValue, key: &str) -> (r: Option<&'a [u8]>)
    ensures
        match field_bytes(v.model(), key.spec_bytes()) {
            Some(b) => r matches Some(x) && x@ == b,
            None => r is None,
        },
{
    match v.dict_get(key) {
        Some(x) => x.as_bytes(),
        None => None,
    }
}

/// The integer under `key`.
pub fn int_field(v: &BValue, key: &str) -> (r: Option<i64>)
    ensures
        match field_int(v.model(), key.spec_bytes()) {
            Some(n) => r matches Some(k) && k as int == n,
            None => r is None,
        },
{
    match v.dict_get(key) {
        Some(x) => x.as_integer(),
        None => None,
    }
}

/// The items of the list under `key`.
pub fn list_field<'a>(v: &'a BValue, key: &str) -> (r: Option<&'a [BValue]>)
    ensures
        match field_list(v.model(), key.spec_bytes()) {
            Some(items) => r matches Some(x) && BValue::models(x@) == items,
            None => r is None,
        },
{
    match v.dict_get(key) {
        Some(x) => x.as_list(),
        None => None,
    }
}

} // verus!
