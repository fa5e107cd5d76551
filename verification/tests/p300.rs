use vcontrol::protocol::{checksum, frame_telegram, Event, Io, Next, P300};
use vcontrol::{Error, IoErrorKind};

fn expect_write(r: Next) -> Vec<u8> {
    match r {
        Next::Io(Io::Write(b)) => b,
        other => panic!("expected a write, got {:?}", other),
    }
}

fn expect_read(r: Next) -> usize {
    match r {
        Next::Io(Io::Read(n)) => n,
        other => panic!("expected a read, got {:?}", other),
    }
}

fn expect_done(r: Next) -> Vec<u8> {
    match r {
        Next::Done(b) => b,
        other => panic!("expected completion, got {:?}", other),
    }
}

fn expect_invalid_data(r: Next) {
    match r {
        Next::Fail(Error::Io(e)) => assert_eq!(e.kind, IoErrorKind::InvalidData),
        other => panic!("expected an invalid-data failure, got {:?}", other),
    }
}

fn expect_timeout(r: Next) {
    match r {
        Next::Fail(Error::Io(e)) => assert_eq!(e.kind, IoErrorKind::TimedOut),
        other => panic!("expected a timeout, got {:?}", other),
    }
}

#[test]
fn telegram_checksum_and_frame() {
    let payload = vec![0x00, 0x01, 0x01, 0x05, 0x02];
    assert_eq!(checksum(&payload), (5 + 0x00 + 0x01 + 0x01 + 0x05 + 0x02) as u8);
    assert_eq!(
        frame_telegram(&payload),
        vec![0x41, 0x05, 0x00, 0x01, 0x01, 0x05, 0x02, 0x0e]
    );
    // The checksum truncates to eight bits.
    let heavy = vec![0xff, 0xff];
    assert_eq!(checksum(&heavy), ((2u32 + 255 + 255) % 256) as u8);
}

#[test]
fn read_telegram_checksum_mismatch_is_nacked_and_retried() {
    let (mut m, io) = P300::read_telegram(60_000);
    assert!(matches!(io, Io::Read(1)));
    assert_eq!(expect_read(m.step(Event::Read { bytes: vec![0x41], now_ms: 0 })), 1);
    assert_eq!(expect_read(m.step(Event::Read { bytes: vec![0x02], now_ms: 1 })), 2);
    assert_eq!(expect_read(m.step(Event::Read { bytes: vec![0xab, 0xcd], now_ms: 2 })), 1);
    // A flipped payload byte: the checksum no longer matches; a NACK goes
    // out and a fresh telegram is read, not an error.
    let good = checksum(&vec![0xab, 0xcd]);
    assert_eq!(
        expect_write(m.step(Event::Read { bytes: vec![good ^ 0x01], now_ms: 3 })),
        vec![0x15]
    );
    assert_eq!(expect_read(m.step(Event::Wrote { now_ms: 4 })), 1);
    // The retried telegram arrives intact and is acknowledged.
    expect_read(m.step(Event::Read { bytes: vec![0x41], now_ms: 5 }));
    expect_read(m.step(Event::Read { bytes: vec![0x02], now_ms: 6 }));
    expect_read(m.step(Event::Read { bytes: vec![0xab, 0xcd], now_ms: 7 }));
    assert_eq!(
        expect_write(m.step(Event::Read { bytes: vec![good], now_ms: 8 })),
        vec![0x06]
    );
    let payload = expect_done(m.step(Event::Wrote { now_ms: 9 }));
    assert_eq!(payload, vec![0xab, 0xcd]);
}

#[test]
fn read_telegram_retries_until_timeout() {
    let (mut m, _io) = P300::read_telegram(60_000);
    expect_read(m.step(Event::Read { bytes: vec![0x41], now_ms: 0 }));
    expect_read(m.step(Event::Read { bytes: vec![0x01], now_ms: 1 }));
    expect_read(m.step(Event::Read { bytes: vec![0x7f], now_ms: 2 }));
    expect_write(m.step(Event::Read { bytes: vec![0x00], now_ms: 3 }));
    // The NACK completes only after the deadline: the exchange gives up.
    expect_timeout(m.step(Event::Wrote { now_ms: 60_001 }));
}

#[test]
fn read_telegram_wrong_leadin_is_fatal() {
    let (mut m, _io) = P300::read_telegram(60_000);
    expect_invalid_data(m.step(Event::Read { bytes: vec![0x42], now_ms: 0 }));
}

#[test]
fn write_telegram_nack_resends_the_frame() {
    let payload = vec![0x00, 0x01, 0x01, 0x05, 0x02];
    let frame = frame_telegram(&payload);
    let (mut m, io) = P300::write_telegram(payload, 60_000);
    match io {
        Io::Write(b) => assert_eq!(b, frame),
        other => panic!("expected a write, got {:?}", other),
    }
    assert_eq!(expect_read(m.step(Event::Wrote { now_ms: 0 })), 1);
    assert_eq!(
        expect_write(m.step(Event::Read { bytes: vec![0x15], now_ms: 1 })),
        frame
    );
    assert_eq!(expect_read(m.step(Event::Wrote { now_ms: 2 })), 1);
    let done = expect_done(m.step(Event::Read { bytes: vec![0x06], now_ms: 3 }));
    assert!(done.is_empty());
}

#[test]
fn write_telegram_unknown_status_is_fatal() {
    let (mut m, _io) = P300::write_telegram(vec![0x00], 60_000);
    expect_read(m.step(Event::Wrote { now_ms: 0 }));
    expect_invalid_data(m.step(Event::Read { bytes: vec![0x55], now_ms: 1 }));
}

#[test]
fn negotiate_waits_for_sync_then_shakes_hands() {
    let (mut m, io) = P300::negotiate(60_000);
    match io {
        Io::Write(b) => assert_eq!(b, vec![0x04]),
        other => panic!("expected a write, got {:?}", other),
    }
    assert_eq!(expect_read(m.step(Event::Wrote { now_ms: 0 })), 1);
    // Stray status bytes are skipped until the sync byte appears.
    assert_eq!(expect_read(m.step(Event::Read { bytes: vec![0x00], now_ms: 1 })), 1);
    assert_eq!(
        expect_write(m.step(Event::Read { bytes: vec![0x05], now_ms: 2 })),
        vec![0x16, 0x00, 0x00]
    );
    assert_eq!(expect_read(m.step(Event::Wrote { now_ms: 3 })), 1);
    // A NACK has the negotiation frame sent again; an ACK makes the link
    // ready.
    assert_eq!(
        expect_write(m.step(Event::Read { bytes: vec![0x15], now_ms: 4 })),
        vec![0x16, 0x00, 0x00]
    );
    assert_eq!(expect_read(m.step(Event::Wrote { now_ms: 5 })), 1);
    let done = expect_done(m.step(Event::Read { bytes: vec![0x06], now_ms: 6 }));
    assert!(done.is_empty());
}

#[test]
fn negotiate_unknown_status_is_fatal() {
    let (mut m, _io) = P300::negotiate(60_000);
    expect_read(m.step(Event::Wrote { now_ms: 0 }));
    expect_write(m.step(Event::Read { bytes: vec![0x05], now_ms: 1 }));
    expect_read(m.step(Event::Wrote { now_ms: 2 }));
    expect_invalid_data(m.step(Event::Read { bytes: vec![0x77], now_ms: 3 }));
}

fn feed_response(m: &mut vcontrol::protocol::P300Get, payload: Vec<u8>, t: u64) -> Next {
    let sum = checksum(&payload);
    let len = payload.len() as u8;
    expect_read(m.step(Event::Read { bytes: vec![0x41], now_ms: t }));
    expect_read(m.step(Event::Read { bytes: vec![len], now_ms: t + 1 }));
    expect_read(m.step(Event::Read { bytes: payload, now_ms: t + 2 }));
    let ack = expect_write(m.step(Event::Read { bytes: vec![sum], now_ms: t + 3 }));
    assert_eq!(ack, vec![0x06]);
    m.step(Event::Wrote { now_ms: t + 4 })
}

#[test]
fn p300_get_full_exchange() {
    let (mut m, io) = P300::get(0x0105, 2, 60_000);
    // Request telegram: leadin, length, request header, address, length,
    // checksum.
    match io {
        Io::Write(b) => assert_eq!(b, vec![0x41, 0x05, 0x00, 0x01, 0x01, 0x05, 0x02, 0x0e]),
        other => panic!("expected a write, got {:?}", other),
    }
    assert_eq!(expect_read(m.step(Event::Wrote { now_ms: 0 })), 1);
    assert_eq!(expect_read(m.step(Event::Read { bytes: vec![0x06], now_ms: 1 })), 1);
    let r = feed_response(&mut m, vec![0x01, 0x01, 0x01, 0x05, 0x02, 0x34, 0x12], 2);
    assert_eq!(expect_done(r), vec![0x34, 0x12]);
}

#[test]
fn p300_get_wrong_address_is_fatal() {
    let (mut m, _io) = P300::get(0x0105, 2, 60_000);
    expect_read(m.step(Event::Wrote { now_ms: 0 }));
    expect_read(m.step(Event::Read { bytes: vec![0x06], now_ms: 1 }));
    // A checksum-confirmed response for another address is a desync, not
    // line noise: fatal, no retry.
    let r = feed_response(&mut m, vec![0x01, 0x01, 0x02, 0x05, 0x02, 0x34, 0x12], 2);
    expect_invalid_data(r);
}

#[test]
fn p300_get_wrong_header_is_fatal() {
    let (mut m, _io) = P300::get(0x0105, 2, 60_000);
    expect_read(m.step(Event::Wrote { now_ms: 0 }));
    expect_read(m.step(Event::Read { bytes: vec![0x06], now_ms: 1 }));
    let r = feed_response(&mut m, vec![0x01, 0x02, 0x01, 0x05, 0x02, 0x34, 0x12], 2);
    expect_invalid_data(r);
}

#[test]
fn p300_set_full_exchange() {
    let (mut m, io) = P300::set(0x2323, vec![0x01], 60_000);
    match io {
        Io::Write(b) => {
            // Payload: request header for write data, address, length, value.
            assert_eq!(b[0], 0x41);
            assert_eq!(b[1], 0x06);
            assert_eq!(&b[2..8], &[0x00, 0x02, 0x23, 0x23, 0x01, 0x01]);
        },
        other => panic!("expected a write, got {:?}", other),
    }
    assert_eq!(expect_read(m.step(Event::Wrote { now_ms: 0 })), 1);
    assert_eq!(expect_read(m.step(Event::Read { bytes: vec![0x06], now_ms: 1 })), 1);
    let response = vec![0x01, 0x02, 0x23, 0x23, 0x01];
    let sum = checksum(&response);
    expect_read(m.step(Event::Read { bytes: vec![0x41], now_ms: 2 }));
    expect_read(m.step(Event::Read { bytes: vec![0x05], now_ms: 3 }));
    expect_read(m.step(Event::Read { bytes: response, now_ms: 4 }));
    assert_eq!(
        expect_write(m.step(Event::Read { bytes: vec![sum], now_ms: 5 })),
        vec![0x06]
    );
    let done = expect_done(m.step(Event::Wrote { now_ms: 6 }));
    assert!(done.is_empty());
}

#[test]
fn p300_set_rejected_length_is_fatal() {
    let (mut m, _io) = P300::set(0x2323, vec![0x01], 60_000);
    expect_read(m.step(Event::Wrote { now_ms: 0 }));
    expect_read(m.step(Event::Read { bytes: vec![0x06], now_ms: 1 }));
    // The response names a different accepted length: the device did not
    // take the write.
    let response = vec![0x01, 0x02, 0x23, 0x23, 0x00];
    let sum = checksum(&response);
    expect_read(m.step(Event::Read { bytes: vec![0x41], now_ms: 2 }));
    expect_read(m.step(Event::Read { bytes: vec![0x05], now_ms: 3 }));
    expect_read(m.step(Event::Read { bytes: response, now_ms: 4 }));
    expect_write(m.step(Event::Read { bytes: vec![sum], now_ms: 5 }));
    expect_invalid_data(m.step(Event::Wrote { now_ms: 6 }));
}
