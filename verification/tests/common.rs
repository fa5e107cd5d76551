use vcontrol::{hex_to_u8, string_to_u8, u8_to_hex, Error};

#[test]
fn hex_parse_accepts_prefix_and_case() {
    assert_eq!(hex_to_u8("0xAB").unwrap(), 0xab);
    assert_eq!(hex_to_u8("ab").unwrap(), 0xab);
    assert_eq!(hex_to_u8("F").unwrap(), 0x0f);
    assert_eq!(hex_to_u8("00ff").unwrap(), 0xff);
    assert_eq!(hex_to_u8("+1a").unwrap(), 0x1a);
    assert_eq!(hex_to_u8("-0").unwrap(), 0);
}

#[test]
fn hex_parse_rejects_bad_input() {
    assert!(matches!(hex_to_u8(""), Err(Error::InvalidArgument(_))));
    assert!(matches!(hex_to_u8("0x"), Err(Error::InvalidArgument(_))));
    assert!(matches!(hex_to_u8("zz"), Err(Error::InvalidArgument(_))));
    assert!(matches!(hex_to_u8("100"), Err(Error::InvalidArgument(_))));
    assert!(matches!(hex_to_u8("-1"), Err(Error::InvalidArgument(_))));
    assert!(matches!(hex_to_u8("1 2"), Err(Error::InvalidArgument(_))));
}

#[test]
fn hex_format_pairs_bytes_with_spaces() {
    assert_eq!(u8_to_hex(&[]), "");
    assert_eq!(u8_to_hex(&[0x0f]), "0F");
    assert_eq!(u8_to_hex(&[0xde, 0xad, 0x01]), "DE AD 01");
}

#[test]
fn hex_string_parses_token_lists() {
    assert_eq!(string_to_u8("01 0x02 ff").unwrap(), vec![0x01, 0x02, 0xff]);
    assert_eq!(string_to_u8("  0xAB\t17  ").unwrap(), vec![0xab, 0x17]);
    assert_eq!(string_to_u8("").unwrap(), Vec::<u8>::new());
    assert!(matches!(string_to_u8("01 xx"), Err(Error::InvalidArgument(_))));
}

#[test]
fn hex_string_splits_on_unicode_whitespace() {
    // A no-break space and an ideographic space separate tokens just as the
    // ASCII ones do.
    assert_eq!(string_to_u8("01\u{a0}02\u{3000}03").unwrap(), vec![0x01, 0x02, 0x03]);
    assert_eq!(string_to_u8("0a\u{2009}0b").unwrap(), vec![0x0a, 0x0b]);
}

#[test]
fn hex_round_trip() {
    let bytes = vec![0x00, 0x41, 0xff];
    let text = u8_to_hex(&bytes);
    assert_eq!(string_to_u8(&text).unwrap(), bytes);
}

#[test]
fn error_messages_carry_their_description() {
    let e = Error::UnsupportedCommand(String::from("command x is not supported"));
    assert_eq!(e.message(), "command x is not supported");
}
