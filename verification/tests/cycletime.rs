use vcontrol::types::{CycleTime, Time};

#[test]
fn cycletime_zero_pair_decodes_to_midnight() {
    let ct = CycleTime::from_bytes(&[0x00, 0x00, 0xff, 0xff, 0xff, 0xff, 0xff, 0xff]);
    let times = ct.times();
    assert_eq!(times.len(), 4);
    assert_eq!(times[0].from, Some(Time { hour: 0, minute: 0 }));
    assert_eq!(times[0].to, Some(Time { hour: 0, minute: 0 }));
}

#[test]
fn cycletime_unset_half_pair() {
    // 0xFF at either half of a pair leaves that boundary unset.
    let ct = CycleTime::from_bytes(&[0xff, 0x2a, 0x2a, 0xff, 0xff, 0xff, 0xff, 0xff]);
    let times = ct.times();
    // 0x2a = (5 << 3) | 2 -> 05:20
    assert_eq!(times[0].from, None);
    assert_eq!(times[0].to, Some(Time { hour: 5, minute: 20 }));
    assert_eq!(times[1].from, Some(Time { hour: 5, minute: 20 }));
    assert_eq!(times[1].to, None);
}

#[test]
fn cycletime_both_halves_unset_is_no_interval() {
    let ct = CycleTime::from_bytes(&[0xff, 0xff, 0xff, 0xff, 0xff, 0xff, 0xff, 0xff]);
    let times = ct.times();
    for slot in &times {
        assert_eq!(slot.from, None);
        assert_eq!(slot.to, None);
    }
}

#[test]
fn cycletime_packed_encoding() {
    // (hour << 3) | (minute / 10): 21:30 packs as 0xAB.
    let ct = CycleTime::from_bytes(&[0xab, 0xbb, 0x00, 0x07, 0xff, 0xff, 0xff, 0xff]);
    let times = ct.times();
    assert_eq!(times[0].from, Some(Time { hour: 21, minute: 30 }));
    assert_eq!(times[0].to, Some(Time { hour: 23, minute: 30 }));
    assert_eq!(times[1].from, Some(Time { hour: 0, minute: 0 }));
    assert_eq!(times[1].to, Some(Time { hour: 0, minute: 70 }));
    assert_eq!(ct.byte_to_time(0), Some(Time { hour: 21, minute: 30 }));
    assert_eq!(ct.byte_to_time(4), None);
}

#[test]
fn cycletime_bytes_round_trip() {
    let bytes = [0xab, 0xbb, 0x00, 0x07, 0xff, 0xff, 0x2a, 0x00];
    let ct = CycleTime::from_bytes(&bytes);
    assert_eq!(ct.to_bytes(), bytes);
}
