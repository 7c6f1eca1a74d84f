use libjdb::error::{DecodeError, JdwpError};
use libjdb::jdwp::{decode_body, request_payload, Location, TypeTag};
use libjdb::wire::{Decode, Encode, Reader};

fn encoded<T: Encode>(v: &T) -> Vec<u8> {
    let mut out = Vec::new();
    v.encode(&mut out);
    out
}

fn decoded<T: Decode>(bytes: Vec<u8>) -> Result<T, DecodeError> {
    let mut r = Reader::new(bytes);
    T::decode(&mut r)
}

#[test]
fn integers_are_big_endian() {
    assert_eq!(encoded(&0xABu8), vec![0xAB]);
    assert_eq!(encoded(&0x1234u16), vec![0x12, 0x34]);
    assert_eq!(encoded(&0x12345678u32), vec![0x12, 0x34, 0x56, 0x78]);
    assert_eq!(encoded(&-2i32), vec![0xFF, 0xFF, 0xFF, 0xFE]);
    assert_eq!(encoded(&0x0102030405060708u64), vec![1, 2, 3, 4, 5, 6, 7, 8]);
    assert_eq!(encoded(&-1i64), vec![0xFF; 8]);
}

#[test]
fn integer_round_trips() {
    for v in [0u8, 1, 0x7F, 0xFF] {
        assert_eq!(decoded::<u8>(encoded(&v)), Ok(v));
    }
    for v in [0u16, 1, 0x8000, 0xFFFF] {
        assert_eq!(decoded::<u16>(encoded(&v)), Ok(v));
    }
    for v in [0u32, 1, 0x8000_0000, u32::MAX] {
        assert_eq!(decoded::<u32>(encoded(&v)), Ok(v));
    }
    for v in [0i32, 1, -1, i32::MIN, i32::MAX] {
        assert_eq!(decoded::<i32>(encoded(&v)), Ok(v));
    }
    for v in [0u64, 1, u64::MAX, 0x8000_0000_0000_0000] {
        assert_eq!(decoded::<u64>(encoded(&v)), Ok(v));
    }
    for v in [0i64, -1, i64::MIN, i64::MAX] {
        assert_eq!(decoded::<i64>(encoded(&v)), Ok(v));
    }
}

#[test]
fn string_round_trips() {
    for s in ["", "main", "java.lang.Thread", "h\u{e9}llo \u{1F600}"] {
        let owned = s.to_string();
        let bytes = encoded(&owned);
        assert_eq!(bytes.len(), 4 + s.len());
        assert_eq!(decoded::<String>(bytes), Ok(owned));
    }
    assert_eq!(encoded(&"ab"), vec![0, 0, 0, 2, b'a', b'b']);
}

#[test]
fn sequence_round_trips() {
    let empty: Vec<u64> = vec![];
    assert_eq!(encoded(&empty), vec![0, 0, 0, 0]);
    assert_eq!(decoded::<Vec<u64>>(encoded(&empty)), Ok(empty));
    let ids: Vec<u64> = vec![1, 2, u64::MAX];
    assert_eq!(decoded::<Vec<u64>>(encoded(&ids)), Ok(ids));
    let names: Vec<String> = vec!["a".to_string(), String::new(), "xyz".to_string()];
    assert_eq!(decoded::<Vec<String>>(encoded(&names)), Ok(names));
    let pairs: (u8, (String, ())) = (7, ("x".to_string(), ()));
    assert_eq!(decoded::<(u8, (String, ()))>(encoded(&pairs)), Ok(pairs));
}

#[test]
fn negative_count_is_an_error() {
    let bytes = vec![0xFF, 0xFF, 0xFF, 0xFF];
    assert_eq!(decoded::<Vec<u64>>(bytes), Err(DecodeError::NegativeCount));
    let bytes = vec![0x80, 0, 0, 0, 1, 2, 3];
    assert_eq!(decoded::<Vec<u8>>(bytes), Err(DecodeError::NegativeCount));
}

#[test]
fn short_input_is_truncated() {
    assert_eq!(decoded::<u32>(vec![1, 2, 3]), Err(DecodeError::Truncated));
    assert_eq!(decoded::<u64>(vec![]), Err(DecodeError::Truncated));
    assert_eq!(decoded::<String>(vec![0, 0, 0, 5, b'a']), Err(DecodeError::Truncated));
    assert_eq!(decoded::<Vec<u32>>(vec![0, 0, 0, 2, 0, 0, 0, 1]), Err(DecodeError::Truncated));
}

#[test]
fn invalid_utf8_is_rejected() {
    assert_eq!(decoded::<String>(vec![0, 0, 0, 2, 0xC3, 0x28]), Err(DecodeError::InvalidUtf8));
}

#[test]
fn decoding_consumes_exactly_its_bytes() {
    let mut r = Reader::new(vec![0, 0, 0, 1, b'z', 9]);
    assert_eq!(String::decode(&mut r), Ok("z".to_string()));
    assert_eq!(r.remaining(), 1);
    assert_eq!(u8::decode(&mut r), Ok(9));
    assert_eq!(r.remaining(), 0);
}

#[test]
fn whole_body_must_be_used() {
    assert_eq!(decode_body::<u32>(vec![0, 0, 0, 7]), Ok(7));
    assert_eq!(
        decode_body::<u32>(vec![0, 0, 0, 7, 0]),
        Err(JdwpError::Decode(DecodeError::TrailingBytes))
    );
    assert_eq!(decode_body::<u32>(vec![0, 0]), Err(JdwpError::Decode(DecodeError::Truncated)));
    assert_eq!(decode_body::<()>(vec![]), Ok(()));
}

#[test]
fn type_tags_map_closed() {
    assert_eq!(TypeTag::from_u8(1), Some(TypeTag::Class));
    assert_eq!(TypeTag::from_u8(2), Some(TypeTag::Interface));
    assert_eq!(TypeTag::from_u8(3), Some(TypeTag::Array));
    assert_eq!(TypeTag::from_u8(0), None);
    assert_eq!(decoded::<TypeTag>(vec![4]), Err(DecodeError::InvalidTag(4)));
}

#[test]
fn location_decodes_in_order() {
    let mut bytes = vec![1u8];
    bytes.extend_from_slice(&[0, 0, 0, 0, 0, 0, 0, 0x10]);
    bytes.extend_from_slice(&[0, 0, 0, 0, 0, 0, 0, 0x20]);
    bytes.extend_from_slice(&[0, 0, 0, 0, 0, 0, 0, 0x30]);
    let loc = decoded::<Location>(bytes).unwrap();
    assert_eq!(
        loc,
        Location { type_tag: TypeTag::Class, class_id: 0x10, method_id: 0x20, location_idx: 0x30 }
    );
}

#[test]
fn payload_follows_argument_order() {
    let args: (u64, (i32, (i32, ()))) = (5, (0, (-1, ())));
    let p = request_payload(&args);
    assert_eq!(p, vec![0, 0, 0, 0, 0, 0, 0, 5, 0, 0, 0, 0, 0xFF, 0xFF, 0xFF, 0xFF]);
}
