use vcontrol::types::ErrState;

#[test]
fn errstate_splits_id_and_time() {
    let err = ErrState::from_bytes(&[0x0f, 0x20, 0x18, 0x12, 0x23, 0x07, 0x17, 0x49, 0x31]);
    assert_eq!(err.id(), 0x0f);
    let time = err.time();
    assert_eq!(time.year(), 2018);
    assert_eq!(time.month(), 12);
    assert_eq!(time.day(), 23);
    assert_eq!(time.weekday(), 7);
    assert_eq!(time.hour(), 17);
    assert_eq!(time.minute(), 49);
    assert_eq!(time.second(), 31);
}

#[test]
fn errstate_text_form() {
    let err = ErrState::from_bytes(&[0x0f, 0x20, 0x18, 0x12, 0x23, 0x07, 0x17, 0x49, 0x31]);
    assert_eq!(err.to_text(), "0F (2018-12-23T17:49:31)");
}

#[test]
fn errstate_bytes_round_trip() {
    let bytes = [0xc4, 0x20, 0x21, 0x01, 0x02, 0x06, 0x00, 0x00, 0x00];
    let err = ErrState::from_bytes(&bytes);
    assert_eq!(err.to_bytes(), bytes);
}
