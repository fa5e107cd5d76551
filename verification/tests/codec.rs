use vcontrol::{EnumMapping, Error, Unit, Value};

fn mapping_on_off() -> EnumMapping {
    EnumMapping::new(vec![
        (vec![0x01], String::from("on")),
        (vec![0x02], String::from("off")),
    ])
    .unwrap()
}

#[test]
fn unit_sizes() {
    assert_eq!(Unit::I8.size(), 1);
    assert_eq!(Unit::I16.size(), 2);
    assert_eq!(Unit::I32.size(), 4);
    assert_eq!(Unit::U8.size(), 1);
    assert_eq!(Unit::U16.size(), 2);
    assert_eq!(Unit::U32.size(), 4);
    assert_eq!(Unit::SysTime.size(), 8);
    assert_eq!(Unit::CycleTime.size(), 8);
    assert_eq!(Unit::ErrState.size(), 9);
}

#[test]
fn decode_unsigned_little_endian() {
    let v = Unit::U16.bytes_to_output(&[0x34, 0x12], &None).unwrap();
    assert!(matches!(v, Value::Number(0x1234)));
    let v = Unit::U32.bytes_to_output(&[0x78, 0x56, 0x34, 0x12], &None).unwrap();
    assert!(matches!(v, Value::Number(0x12345678)));
    let v = Unit::U8.bytes_to_output(&[0x85], &None).unwrap();
    assert!(matches!(v, Value::Number(133)));
}

#[test]
fn decode_signed_two_complement() {
    let v = Unit::I8.bytes_to_output(&[0x85], &None).unwrap();
    assert!(matches!(v, Value::Number(-123)));
    let v = Unit::I16.bytes_to_output(&[0xfe, 0xff], &None).unwrap();
    assert!(matches!(v, Value::Number(-2)));
    let v = Unit::I32.bytes_to_output(&[0xff, 0xff, 0xff, 0xff], &None).unwrap();
    assert!(matches!(v, Value::Number(-1)));
}

#[test]
fn encode_integers_little_endian() {
    let b = Unit::I16.input_to_bytes(&Value::Number(-2), &None).unwrap();
    assert_eq!(b, vec![0xfe, 0xff]);
    let b = Unit::U16.input_to_bytes(&Value::Number(0x1234), &None).unwrap();
    assert_eq!(b, vec![0x34, 0x12]);
    let b = Unit::U32.input_to_bytes(&Value::Number(0x12345678), &None).unwrap();
    assert_eq!(b, vec![0x78, 0x56, 0x34, 0x12]);
    let b = Unit::I8.input_to_bytes(&Value::Number(-123), &None).unwrap();
    assert_eq!(b, vec![0x85]);
}

#[test]
fn encode_narrows_to_unit_width() {
    // 300 does not fit a byte; the low eight bits remain.
    let b = Unit::U8.input_to_bytes(&Value::Number(300), &None).unwrap();
    assert_eq!(b, vec![44]);
}

#[test]
fn integer_round_trip_samples() {
    for v in [-32768i64, -2, -1, 0, 1, 255, 32767] {
        let b = Unit::I16.input_to_bytes(&Value::Number(v), &None).unwrap();
        assert_eq!(b.len(), Unit::I16.size());
        match Unit::I16.bytes_to_output(&b, &None).unwrap() {
            Value::Number(back) => assert_eq!(back, v),
            _ => panic!("expected a number"),
        }
    }
    for v in [0i64, 1, 255, 65535, 4294967295] {
        let b = Unit::U32.input_to_bytes(&Value::Number(v), &None).unwrap();
        assert_eq!(b.len(), Unit::U32.size());
        match Unit::U32.bytes_to_output(&b, &None).unwrap() {
            Value::Number(back) => assert_eq!(back, v),
            _ => panic!("expected a number"),
        }
    }
}

#[test]
fn decode_systime_unit() {
    let bytes = [0x20, 0x18, 0x12, 0x23, 0x07, 0x17, 0x49, 0x31];
    match Unit::SysTime.bytes_to_output(&bytes, &None).unwrap() {
        Value::SysTime(st) => {
            assert_eq!(st.year(), 2018);
            assert_eq!(st.second(), 31);
        },
        _ => panic!("expected a systime"),
    }
}

#[test]
fn decode_errstate_unit() {
    let bytes = [0x0f, 0x20, 0x18, 0x12, 0x23, 0x07, 0x17, 0x49, 0x31];
    match Unit::ErrState.bytes_to_output(&bytes, &None).unwrap() {
        Value::String(s) => assert_eq!(s, "0F (2018-12-23T17:49:31)"),
        _ => panic!("expected a string"),
    }
    assert!(matches!(
        Unit::ErrState.input_to_bytes(&Value::Number(1), &None),
        Err(Error::InvalidArgument(_))
    ));
}

#[test]
fn enum_decode_known_pattern() {
    let m = Some(mapping_on_off());
    match Unit::U8.bytes_to_output(&[0x02], &m).unwrap() {
        Value::String(s) => assert_eq!(s, "off"),
        _ => panic!("expected a string"),
    }
}

#[test]
fn enum_decode_unknown_pattern() {
    let m = Some(mapping_on_off());
    assert!(matches!(
        Unit::U8.bytes_to_output(&[0x03], &m),
        Err(Error::UnknownEnumVariant(_))
    ));
}

#[test]
fn enum_encode_known_string() {
    let m = Some(mapping_on_off());
    let b = Unit::U8.input_to_bytes(&Value::String(String::from("on")), &m).unwrap();
    assert_eq!(b, vec![0x01]);
}

#[test]
fn enum_encode_unknown_string() {
    let m = Some(mapping_on_off());
    assert!(matches!(
        Unit::U8.input_to_bytes(&Value::String(String::from("auto")), &m),
        Err(Error::InvalidArgument(_))
    ));
    assert!(matches!(
        Unit::U8.input_to_bytes(&Value::Number(1), &m),
        Err(Error::InvalidArgument(_))
    ));
}

#[test]
fn enum_mapping_must_be_bijective() {
    assert!(matches!(
        EnumMapping::new(vec![
            (vec![0x01], String::from("on")),
            (vec![0x01], String::from("off")),
        ]),
        Err(Error::InvalidArgument(_))
    ));
    assert!(matches!(
        EnumMapping::new(vec![
            (vec![0x01], String::from("on")),
            (vec![0x02], String::from("on")),
        ]),
        Err(Error::InvalidArgument(_))
    ));
    assert!(matches!(
        EnumMapping::new(vec![
            (vec![0x01], String::from("on")),
            (vec![0x02, 0x03], String::from("off")),
        ]),
        Err(Error::InvalidArgument(_))
    ));
}

#[test]
fn value_kind_must_match_unit() {
    assert!(matches!(
        Unit::SysTime.input_to_bytes(&Value::Number(1), &None),
        Err(Error::InvalidArgument(_))
    ));
    assert!(matches!(
        Unit::U8.input_to_bytes(&Value::String(String::from("1")), &None),
        Err(Error::InvalidArgument(_))
    ));
}
