use ratiomaster::bencode::{decode, decode_prefix, encode, encode_into, BValue, BencodeError};

/// A dictionary value from (key, value) pairs, in key order.
fn dict(mut pairs: Vec<(Vec<u8>, BValue)>) -> BValue {
    pairs.sort_by(|a, b| a.0.cmp(&b.0));
    BValue::Dict(pairs)
}

fn s(b: &[u8]) -> BValue {
    BValue::String(b.to_vec())
}

#[test]
fn decode_integer() {
    assert_eq!(decode(b"i42e").unwrap(), BValue::Integer(42));
    assert_eq!(decode(b"i0e").unwrap(), BValue::Integer(0));
    assert_eq!(decode(b"i-1e").unwrap(), BValue::Integer(-1));
    assert_eq!(decode(b"i9999999999e").unwrap(), BValue::Integer(9_999_999_999));
}

#[test]
fn decode_integer_negative_zero_rejected() {
    assert!(matches!(decode(b"i-0e"), Err(BencodeError::InvalidInteger(_))));
}

#[test]
fn decode_integer_leading_zero_rejected() {
    assert!(matches!(decode(b"i03e"), Err(BencodeError::InvalidInteger(_))));
}

#[test]
fn decode_integer_empty_rejected() {
    assert!(matches!(decode(b"ie"), Err(BencodeError::InvalidInteger(_))));
}

#[test]
fn decode_string() {
    assert_eq!(decode(b"4:spam").unwrap(), BValue::String(b"spam".to_vec()));
    assert_eq!(decode(b"0:").unwrap(), BValue::String(b"".to_vec()));
}

#[test]
fn decode_string_binary() {
    let data = b"3:\x00\xff\x80";
    let val = decode(data).unwrap();
    assert_eq!(val.as_bytes().unwrap(), &[0x00, 0xff, 0x80]);
}

#[test]
fn decode_list() {
    let val = decode(b"l4:spam4:eggse").unwrap();
    let list = val.as_list().unwrap();
    assert_eq!(list.len(), 2);
    assert_eq!(list[0].as_str().unwrap(), "spam");
    assert_eq!(list[1].as_str().unwrap(), "eggs");
}

#[test]
fn decode_empty_list() {
    let val = decode(b"le").unwrap();
    assert_eq!(val.as_list().unwrap().len(), 0);
}

#[test]
fn decode_nested_list() {
    let val = decode(b"lli1ei2eeli3eee").unwrap();
    let list = val.as_list().unwrap();
    assert_eq!(list.len(), 2);
    assert_eq!(list[0].as_list().unwrap().len(), 2);
}

#[test]
fn decode_dict() {
    let val = decode(b"d3:cow3:moo4:spam4:eggse").unwrap();
    let dict = val.as_dict().unwrap();
    assert_eq!(dict.len(), 2);
    assert_eq!(val.dict_get_bytes(b"cow").unwrap().as_str().unwrap(), "moo");
    assert_eq!(val.dict_get_bytes(b"spam").unwrap().as_str().unwrap(), "eggs");
}

#[test]
fn decode_empty_dict() {
    let val = decode(b"de").unwrap();
    assert_eq!(val.as_dict().unwrap().len(), 0);
}

#[test]
fn decode_dict_unsorted_keys_rejected() {
    assert!(matches!(decode(b"d4:spam4:eggs3:cow3:mooe"), Err(BencodeError::UnsortedKeys)));
}

#[test]
fn decode_nested_dict() {
    let val = decode(b"d4:infod4:name4:testee").unwrap();
    let inner = val.dict_get("info").unwrap();
    assert_eq!(inner.dict_get("name").unwrap().as_str().unwrap(), "test");
}

#[test]
fn decode_trailing_data() {
    assert!(matches!(decode(b"i42eextra"), Err(BencodeError::TrailingData { remaining: 5 })));
}

#[test]
fn decode_empty_input() {
    assert!(matches!(decode(b""), Err(BencodeError::UnexpectedEof)));
}

#[test]
fn decode_prefix_basic() {
    let (val, consumed) = decode_prefix(b"i42eextra").unwrap();
    assert_eq!(val.as_integer().unwrap(), 42);
    assert_eq!(consumed, 4);
}

#[test]
fn decode_large_negative_integer() {
    assert_eq!(decode(b"i-9223372036854775808e").unwrap(), BValue::Integer(i64::MIN));
}

#[test]
fn decode_deeply_nested_structure() {
    let l3 = dict(vec![
        (
            b"items".to_vec(),
            BValue::List(vec![BValue::Integer(1), BValue::Integer(2), BValue::Integer(3)]),
        ),
        (b"name".to_vec(), s(b"test")),
    ]);
    let l2 = BValue::List(vec![l3]);
    let value = dict(vec![(b"data".to_vec(), l2), (b"type".to_vec(), s(b"list"))]);
    let encoded = encode(&value);
    let decoded = decode(&encoded).unwrap();
    assert_eq!(decoded, value);
}

#[test]
fn decode_six_level_nesting() {
    let val = decode(b"llllli42eeeeee").unwrap();
    let l1 = val.as_list().unwrap();
    let l2 = l1[0].as_list().unwrap();
    let l3 = l2[0].as_list().unwrap();
    let l4 = l3[0].as_list().unwrap();
    let l5 = l4[0].as_list().unwrap();
    assert_eq!(l5[0].as_integer().unwrap(), 42);
}

#[test]
fn decode_very_large_integer_overflow() {
    assert!(matches!(decode(b"i9999999999999999999e"), Err(BencodeError::InvalidInteger(_))));
}

#[test]
fn decode_i64_max() {
    let encoded = format!("i{}e", i64::MAX);
    assert_eq!(decode(encoded.as_bytes()).unwrap(), BValue::Integer(i64::MAX));
}

#[test]
fn decode_zero_length_string() {
    let val = decode(b"0:").unwrap();
    assert_eq!(val.as_bytes().unwrap(), &[] as &[u8]);
    assert_eq!(val.as_str().unwrap(), "");
}

#[test]
fn decode_dict_with_many_keys() {
    let mut pairs = Vec::new();
    for i in 0..60u32 {
        let key = format!("key_{:04}", i);
        pairs.push((key.as_bytes().to_vec(), BValue::Integer(i as i64)));
    }
    let value = dict(pairs);
    let encoded = encode(&value);
    let decoded = decode(&encoded).unwrap();
    assert_eq!(decoded, value);
    assert_eq!(decoded.as_dict().unwrap().len(), 60);
}

#[test]
fn decode_binary_all_256_byte_values() {
    let all_bytes: Vec<u8> = (0u16..256).map(|b| b as u8).collect();
    let mut encoded = format!("{}:", all_bytes.len()).into_bytes();
    encoded.extend_from_slice(&all_bytes);
    let val = decode(&encoded).unwrap();
    assert_eq!(val.as_bytes().unwrap(), &all_bytes[..]);
}

#[test]
fn decode_truncated_integer() {
    assert!(matches!(decode(b"i42"), Err(BencodeError::UnexpectedEof)));
}

#[test]
fn decode_truncated_string() {
    assert!(matches!(decode(b"10:abc"), Err(BencodeError::UnexpectedEof)));
}

#[test]
fn decode_truncated_list() {
    assert!(matches!(decode(b"li42e"), Err(BencodeError::UnexpectedEof)));
}

#[test]
fn decode_truncated_dict() {
    assert!(matches!(decode(b"d3:fooi1e"), Err(BencodeError::UnexpectedEof)));
}

#[test]
fn decode_invalid_int_plus_sign() {
    assert_eq!(decode(b"i+5e").unwrap(), BValue::Integer(5));
}

#[test]
fn decode_invalid_int_double_minus() {
    assert!(matches!(decode(b"i--5e"), Err(BencodeError::InvalidInteger(_))));
}

#[test]
fn decode_invalid_int_leading_zero_negative() {
    assert!(matches!(decode(b"i-01e"), Err(BencodeError::InvalidInteger(_))));
}

#[test]
fn decode_dict_duplicate_key_rejected() {
    assert!(matches!(decode(b"d2:aai1e2:aai2ee"), Err(BencodeError::UnsortedKeys)));
}

#[test]
fn decode_invalid_start_byte() {
    assert!(matches!(decode(b"x"), Err(BencodeError::InvalidByte { byte: b'x', position: 0 })));
}

#[test]
fn decode_fuzz_random_bytes_rejected() {
    let inputs: &[&[u8]] = &[b"\xff\xff", b"i\x00e", b"d\x00\x00e", b"l\xfee", b"999999999999:"];
    for input in inputs {
        let _ = decode(input);
    }
}

#[test]
fn decode_prefix_with_multiple_values() {
    let data = b"i1ei2ei3e";
    let (val1, consumed1) = decode_prefix(data).unwrap();
    assert_eq!(val1.as_integer().unwrap(), 1);
    assert_eq!(consumed1, 3);
    let (val2, consumed2) = decode_prefix(&data[consumed1..]).unwrap();
    assert_eq!(val2.as_integer().unwrap(), 2);
    assert_eq!(consumed2, 3);
}

#[test]
fn decode_string_with_colon_in_content() {
    let val = decode(b"5:a:b:c").unwrap();
    assert_eq!(val.as_str().unwrap(), "a:b:c");
}

#[test]
fn decode_nested_empty_structures() {
    let val = decode(b"d5:emptyde4:listlee").unwrap();
    let d = val.as_dict().unwrap();
    assert_eq!(d.len(), 2);
    assert!(val.dict_get_bytes(b"empty").unwrap().as_dict().unwrap().is_empty());
    assert!(val.dict_get_bytes(b"list").unwrap().as_list().unwrap().is_empty());
}

#[test]
fn encode_integer() {
    assert_eq!(encode(&BValue::Integer(42)), b"i42e");
    assert_eq!(encode(&BValue::Integer(0)), b"i0e");
    assert_eq!(encode(&BValue::Integer(-1)), b"i-1e");
}

#[test]
fn encode_string() {
    assert_eq!(encode(&BValue::String(b"spam".to_vec())), b"4:spam");
    assert_eq!(encode(&BValue::String(b"".to_vec())), b"0:");
}

#[test]
fn encode_list() {
    let list = BValue::List(vec![BValue::String(b"spam".to_vec()), BValue::Integer(42)]);
    assert_eq!(encode(&list), b"l4:spami42ee");
}

#[test]
fn encode_empty_list() {
    assert_eq!(encode(&BValue::List(vec![])), b"le");
}

#[test]
fn encode_dict() {
    let d = dict(vec![(b"cow".to_vec(), s(b"moo")), (b"spam".to_vec(), s(b"eggs"))]);
    assert_eq!(encode(&d), b"d3:cow3:moo4:spam4:eggse");
}

#[test]
fn encode_empty_dict() {
    assert_eq!(encode(&BValue::Dict(Vec::new())), b"de");
}

#[test]
fn encode_binary_string() {
    let val = BValue::String(vec![0x00, 0xff, 0x80]);
    let encoded = encode(&val);
    assert_eq!(&encoded[..2], b"3:");
    assert_eq!(&encoded[2..], &[0x00, 0xff, 0x80]);
}

#[test]
fn roundtrip_complex() {
    let info = dict(vec![
        (b"length".to_vec(), BValue::Integer(12345)),
        (b"name".to_vec(), s(b"test.txt")),
        (b"piece length".to_vec(), BValue::Integer(262144)),
        (b"pieces".to_vec(), BValue::String(vec![0xab; 20])),
    ]);
    let value = dict(vec![
        (b"announce".to_vec(), s(b"http://tracker.example.com/announce")),
        (b"info".to_vec(), info),
    ]);
    let encoded = encode(&value);
    let decoded = decode(&encoded).unwrap();
    assert_eq!(decoded, value);
    let re_encoded = encode(&decoded);
    assert_eq!(re_encoded, encoded);
}

#[test]
fn encode_deeply_nested() {
    let inner = BValue::Dict(Vec::new());
    let level1 = dict(vec![(b"a".to_vec(), inner)]);
    let list = BValue::List(vec![level1]);
    let val = dict(vec![(b"b".to_vec(), list)]);
    let encoded = encode(&val);
    let decoded = decode(&encoded).unwrap();
    assert_eq!(decoded, val);
}

#[test]
fn encode_large_integer_values() {
    assert_eq!(encode(&BValue::Integer(i64::MAX)), format!("i{}e", i64::MAX).into_bytes());
    assert_eq!(encode(&BValue::Integer(i64::MIN)), format!("i{}e", i64::MIN).into_bytes());
}

#[test]
fn encode_zero_length_string() {
    assert_eq!(encode(&BValue::String(vec![])), b"0:");
}

#[test]
fn encode_all_256_byte_values() {
    let all_bytes: Vec<u8> = (0u16..256).map(|b| b as u8).collect();
    let val = BValue::String(all_bytes.clone());
    let encoded = encode(&val);
    let decoded = decode(&encoded).unwrap();
    assert_eq!(decoded.as_bytes().unwrap(), &all_bytes[..]);
}

#[test]
fn encode_dict_many_keys() {
    let mut pairs = Vec::new();
    for i in 0..55u32 {
        pairs.push((format!("k{:03}", i).into_bytes(), BValue::Integer(i as i64)));
    }
    let val = dict(pairs);
    let encoded = encode(&val);
    let decoded = decode(&encoded).unwrap();
    assert_eq!(decoded.as_dict().unwrap().len(), 55);
}

#[test]
fn encode_list_mixed_types() {
    let d = dict(vec![(b"x".to_vec(), BValue::Integer(1))]);
    let list = BValue::List(vec![
        BValue::String(b"hello".to_vec()),
        BValue::Integer(-42),
        BValue::List(vec![]),
        d,
    ]);
    let encoded = encode(&list);
    let decoded = decode(&encoded).unwrap();
    assert_eq!(decoded, list);
}

#[test]
fn encode_into_appends() {
    let mut buf = b"xx".to_vec();
    encode_into(&BValue::Integer(7), &mut buf);
    assert_eq!(buf, b"xxi7e");
}

#[test]
fn decode_of_encode_gives_back_the_value() {
    let v = dict(vec![
        (b"a".to_vec(), BValue::List(vec![BValue::Integer(-3), s(b"")])),
        (b"b".to_vec(), BValue::Dict(Vec::new())),
    ]);
    assert_eq!(decode(&encode(&v)).unwrap(), v);
}

#[test]
fn decode_error_messages() {
    assert_eq!(decode(b"").unwrap_err().message(), "unexpected end of input");
    assert_eq!(
        decode(b"x").unwrap_err().message(),
        "invalid byte 0x78 at position 0"
    );
    assert_eq!(decode(b"i42eab").unwrap_err().message(), "trailing data: 2 bytes after decoded value");
}

#[test]
fn nesting_deeper_than_128_is_refused() {
    let nested = |n: usize| [vec![b'l'; n], vec![b'e'; n]].concat();
    assert!(decode(&nested(128)).is_ok());
    assert_eq!(decode(&nested(129)), Err(BencodeError::NestingTooDeep));
    assert_eq!(decode(&nested(200)), Err(BencodeError::NestingTooDeep));
    let dicts = [b"d1:a".repeat(129), b"i1e".to_vec(), vec![b'e'; 129]].concat();
    assert_eq!(decode(&dicts), Err(BencodeError::NestingTooDeep));
    let v = decode(b"llllli42eeeeee").unwrap();
    assert_eq!(encode(&v), b"llllli42eeeeee".to_vec());
    assert_eq!(
        BencodeError::NestingTooDeep.message(),
        "nesting depth exceeds maximum of 128"
    );
}
