use ia5string::{i128_to_decimal, u128_to_decimal, Content, Ia5Error, Ia5String, Shape};

fn text_of(r: Result<Ia5String, Ia5Error>) -> String {
    match r {
        Ok(v) => v.serialize(),
        Err(e) => panic!("unexpected error: {:?}", e),
    }
}

#[test]
fn construct_and_serialize_test() {
    let v = Ia5String::new("test").unwrap();
    assert_eq!(v.serialize(), "test");
    assert_eq!(v.as_str(), "test");
}

#[test]
fn round_trip_keeps_control_and_edge_characters() {
    let t = "\u{0}\u{1f} !~\u{7f}";
    let v = Ia5String::new(t).unwrap();
    assert_eq!(v.serialize(), t);
}

#[test]
fn construct_rejects_character_ff() {
    let r = Ia5String::new("ab\u{ff}");
    assert!(matches!(r, Err(Ia5Error::Validation(_))));
}

#[test]
fn construct_rejects_character_80_and_multibyte() {
    assert!(matches!(Ia5String::new("\u{80}"), Err(Ia5Error::Validation(_))));
    assert!(matches!(Ia5String::new("h\u{e9}llo"), Err(Ia5Error::Validation(_))));
}

#[test]
fn empty_value_is_empty() {
    assert_eq!(Ia5String::empty().serialize(), "");
    assert_eq!(Ia5String::new("").unwrap().serialize(), "");
}

#[test]
fn unsigned_64_bridges_to_its_text() {
    let from_number = text_of(Ia5String::deserialize(&Content::U64(64)));
    let from_text = text_of(Ia5String::deserialize(&Content::Str("64".to_string())));
    assert_eq!(from_number, "64");
    assert_eq!(from_number, from_text);
}

#[test]
fn signed_and_wide_integers_use_decimal_text() {
    assert_eq!(text_of(Ia5String::deserialize(&Content::I64(-42))), "-42");
    assert_eq!(text_of(Ia5String::deserialize(&Content::I64(0))), "0");
    assert_eq!(
        text_of(Ia5String::deserialize(&Content::I64(i64::MIN))),
        "-9223372036854775808"
    );
    assert_eq!(
        text_of(Ia5String::deserialize(&Content::U64(u64::MAX))),
        "18446744073709551615"
    );
    assert_eq!(
        text_of(Ia5String::deserialize(&Content::I128(i128::MIN))),
        "-170141183460469231731687303715884105728"
    );
    assert_eq!(
        text_of(Ia5String::deserialize(&Content::U128(u128::MAX))),
        "340282366920938463463374607431768211455"
    );
}

#[test]
fn decimal_rendering_matches_std() {
    for n in [0u128, 9, 10, 99, 100, 1234567890, u128::MAX] {
        assert_eq!(u128_to_decimal(n), n.to_string());
    }
    for n in [0i128, -1, -10, 7, i128::MIN, i128::MAX] {
        assert_eq!(i128_to_decimal(n), n.to_string());
    }
}

#[test]
fn text_input_is_validated() {
    assert_eq!(text_of(Ia5String::deserialize(&Content::Str("abc".to_string()))), "abc");
    let r = Ia5String::deserialize(&Content::Str("\u{ff}".to_string()));
    assert!(matches!(r, Err(Ia5Error::Validation(_))));
}

#[test]
fn absent_input_gives_empty_value() {
    assert_eq!(text_of(Ia5String::deserialize(&Content::Absent)), "");
}

#[test]
fn structural_inputs_are_type_mismatches() {
    let cases = [
        (Content::Present, Shape::Option),
        (Content::Unit, Shape::Unit),
        (Content::NewtypeStruct, Shape::NewtypeStruct),
        (Content::Sequence, Shape::Sequence),
        (Content::Mapping, Shape::Mapping),
        (Content::Enum, Shape::Enum),
    ];
    for (input, shape) in cases {
        match Ia5String::deserialize(&input) {
            Err(Ia5Error::TypeMismatch(s)) => assert_eq!(s, shape),
            other => panic!("unexpected result: {:?}", other.map(|v| v.serialize())),
        }
    }
}

#[test]
fn der_encoding_of_short_text() {
    let v = Ia5String::new("test").unwrap();
    assert_eq!(v.to_der().unwrap(), vec![0x16, 4, b't', b'e', b's', b't']);
}

#[test]
fn der_encoding_uses_long_form_lengths() {
    let t200 = "a".repeat(200);
    let b = Ia5String::new(&t200).unwrap().to_der().unwrap();
    assert_eq!(&b[..3], &[0x16, 0x81, 200]);
    assert_eq!(b.len(), 203);
    let t300 = "b".repeat(300);
    let b = Ia5String::new(&t300).unwrap().to_der().unwrap();
    assert_eq!(&b[..4], &[0x16, 0x82, 0x01, 0x2c]);
    assert_eq!(b.len(), 304);
}

#[test]
fn der_round_trip() {
    for t in ["", "test", "a longer value with spaces and @ signs", &"x".repeat(1000)] {
        let v = Ia5String::new(t).unwrap();
        let back = Ia5String::from_der(&v.to_der().unwrap()).unwrap();
        assert_eq!(back.serialize(), t);
    }
}

#[test]
fn bytes_input_is_decoded_as_der() {
    let b = vec![0x16, 2, b'h', b'i'];
    assert_eq!(text_of(Ia5String::deserialize(&Content::Bytes(b))), "hi");
}

#[test]
fn bytes_input_that_is_no_encoding_fails() {
    let cases: Vec<Vec<u8>> = vec![
        vec![],
        b"test".to_vec(),
        vec![b'h', b'i'],
        vec![0x0c, 0x04, 0x74, 0x65, 0x73, 0x74],
        vec![0x16, 3, b'h', b'i'],
        vec![0x16, 0x01, 0x61, 0x00],
        vec![0x16, 0x01, 0x80],
        vec![0x16, 1, 0xff],
        vec![0x16, 0x81, 0x04, 0x74, 0x65, 0x73, 0x74],
        vec![0x16, 0x80, 0x61, 0x00, 0x00],
    ];
    for b in cases {
        assert!(matches!(Ia5String::from_der(&b), Err(Ia5Error::Decoding(_))));
        let r = Ia5String::deserialize(&Content::Bytes(b));
        assert!(matches!(r, Err(Ia5Error::Decoding(_))));
    }
}

#[test]
fn conversions_with_der_type() {
    let d = der::asn1::Ia5String::new("abc").unwrap();
    let v = Ia5String::from_der_string(&d);
    assert_eq!(v.serialize(), "abc");
    let back = v.to_der_string();
    assert_eq!(back.as_str(), "abc");
    assert_eq!(back, d);
    let other = Ia5String::new("xyz").unwrap().to_der_string();
    assert_eq!(other.as_str(), "xyz");
}
