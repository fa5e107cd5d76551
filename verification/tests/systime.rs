use std::str::FromStr;

use vcontrol::types::SysTime;
use vcontrol::Error;

#[test]
fn new() {
    let time = SysTime::new(2018, 12, 23, 17, 49, 31);

    assert_eq!(time.year(), 2018);
    assert_eq!(time.month(), 12);
    assert_eq!(time.day(), 23);
    assert_eq!(time.weekday(), 7);
    assert_eq!(time.hour(), 17);
    assert_eq!(time.minute(), 49);
    assert_eq!(time.second(), 31);
}

#[test]
fn from_str() {
    let time = SysTime::from_str("2018-12-23T17:49:31").unwrap();

    assert_eq!(time.year(), 2018);
    assert_eq!(time.month(), 12);
    assert_eq!(time.day(), 23);
    assert_eq!(time.weekday(), 7);
    assert_eq!(time.hour(), 17);
    assert_eq!(time.minute(), 49);
    assert_eq!(time.second(), 31);
}

#[test]
fn from_bytes() {
    let time = SysTime::from_bytes(&[0x20, 0x18, 0x12, 0x23, 0x07, 0x17, 0x49, 0x31]);

    assert_eq!(time.year(), 2018);
    assert_eq!(time.month(), 12);
    assert_eq!(time.day(), 23);
    assert_eq!(time.weekday(), 7);
    assert_eq!(time.hour(), 17);
    assert_eq!(time.minute(), 49);
    assert_eq!(time.second(), 31);
}

#[test]
fn to_bytes() {
    let time = SysTime::new(2018, 12, 23, 17, 49, 31);
    assert_eq!(time.to_bytes(), [0x20, 0x18, 0x12, 0x23, 0x07, 0x17, 0x49, 0x31]);
}

#[test]
fn systime_text_form() {
    let time = SysTime::new(2018, 12, 23, 17, 49, 31);
    assert_eq!(time.to_text(), "2018-12-23T17:49:31");
}

#[test]
fn systime_round_trip_via_bytes() {
    let time = SysTime::new(2018, 12, 23, 17, 49, 31);
    let bytes = time.to_bytes();
    assert_eq!(bytes, [0x20, 0x18, 0x12, 0x23, 0x07, 0x17, 0x49, 0x31]);
    let back = SysTime::from_bytes(&bytes);
    assert_eq!(back.year(), 2018);
    assert_eq!(back.month(), 12);
    assert_eq!(back.day(), 23);
    assert_eq!(back.weekday(), 7);
    assert_eq!(back.hour(), 17);
    assert_eq!(back.minute(), 49);
    assert_eq!(back.second(), 31);
}

#[test]
fn systime_parse_rejects_malformed() {
    assert!(matches!(SysTime::parse("2018-12-23"), Err(Error::InvalidArgument(_))));
    assert!(matches!(SysTime::parse("2018-12-23 17:49:31"), Err(Error::InvalidArgument(_))));
    assert!(matches!(SysTime::parse("2018-13-23T17:49:31"), Err(Error::InvalidArgument(_))));
    assert!(matches!(SysTime::parse("2018-02-30T17:49:31"), Err(Error::InvalidArgument(_))));
    assert!(matches!(SysTime::parse("2018-12-23T24:49:31"), Err(Error::InvalidArgument(_))));
    assert!(matches!(SysTime::parse("2018-12-2aT17:49:31"), Err(Error::InvalidArgument(_))));
}

#[test]
fn systime_parse_leap_day() {
    let time = SysTime::parse("2020-02-29T00:00:00").unwrap();
    assert_eq!(time.year(), 2020);
    assert_eq!(time.month(), 2);
    assert_eq!(time.day(), 29);
    // 2020-02-29 was a Saturday
    assert_eq!(time.weekday(), 6);
    assert!(matches!(SysTime::parse("2019-02-29T00:00:00"), Err(Error::InvalidArgument(_))));
}

#[test]
fn bcd_helpers() {
    assert_eq!(vcontrol::types::byte_to_dec(0x23), 23);
    assert_eq!(vcontrol::types::dec_to_byte(23), 0x23);
    assert_eq!(vcontrol::types::byte_to_dec(0x99), 99);
    assert_eq!(vcontrol::types::dec_to_byte(0), 0x00);
}
