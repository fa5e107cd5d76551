use vcontrol::protocol::{Event, Io, Kw2, Next};
use vcontrol::{Error, IoErrorKind};

fn expect_write(r: Next) -> Vec<u8> {
    match r {
        Next::Io(Io::Write(b)) => b,
        other => panic!("expected a write, got {:?}", other),
    }
}

fn expect_read(r: Next) -> usize {
    match r {
        Next::Io(Io::Read(n)) => n,
        other => panic!("expected a read, got {:?}", other),
    }
}

fn expect_purge(r: Next) {
    match r {
        Next::Io(Io::Purge) => {},
        other => panic!("expected a purge, got {:?}", other),
    }
}

fn expect_done(r: Next) -> Vec<u8> {
    match r {
        Next::Done(b) => b,
        other => panic!("expected completion, got {:?}", other),
    }
}

fn expect_timeout(r: Next) {
    match r {
        Next::Fail(Error::Io(e)) => assert_eq!(e.kind, IoErrorKind::TimedOut),
        other => panic!("expected a timeout, got {:?}", other),
    }
}

#[test]
fn kw2_get_sync_and_request_bytes() {
    let (mut m, io) = Kw2::get(0x1234, 4, 60_000);
    assert!(matches!(io, Io::Purge));
    assert_eq!(expect_write(m.step(Event::Purged { now_ms: 0 })), vec![0x04]);
    assert_eq!(expect_read(m.step(Event::Wrote { now_ms: 1 })), 1);
    // The device answers with the sync byte: purge, then the read request.
    expect_purge(m.step(Event::Read { bytes: vec![0x05], now_ms: 2 }));
    assert_eq!(
        expect_write(m.step(Event::Purged { now_ms: 3 })),
        vec![0x01, 0xf7, 0x12, 0x34, 0x04]
    );
    assert_eq!(expect_read(m.step(Event::Wrote { now_ms: 4 })), 4);
    // Ordinary data is accepted as it stands.
    let data = expect_done(m.step(Event::Read { bytes: vec![1, 2, 3, 4], now_ms: 30 }));
    assert_eq!(data, vec![1, 2, 3, 4]);
}

#[test]
fn kw2_get_resends_reset_until_sync() {
    let (mut m, _io) = Kw2::get(0x0105, 1, 60_000);
    assert_eq!(expect_write(m.step(Event::Purged { now_ms: 0 })), vec![0x04]);
    assert_eq!(expect_read(m.step(Event::Wrote { now_ms: 1 })), 1);
    // A stray byte is no sync: the reset goes out again.
    assert_eq!(
        expect_write(m.step(Event::Read { bytes: vec![0x42], now_ms: 2 })),
        vec![0x04]
    );
    assert_eq!(expect_read(m.step(Event::Wrote { now_ms: 3 })), 1);
    // A failed read does the same.
    assert_eq!(expect_write(m.step(Event::ReadFailed { now_ms: 4 })), vec![0x04]);
    assert_eq!(expect_read(m.step(Event::Wrote { now_ms: 5 })), 1);
    expect_purge(m.step(Event::Read { bytes: vec![0x05], now_ms: 6 }));
}

#[test]
fn kw2_get_sync_timeout() {
    let (mut m, _io) = Kw2::get(0x0105, 1, 60_000);
    expect_write(m.step(Event::Purged { now_ms: 0 }));
    expect_read(m.step(Event::Wrote { now_ms: 1 }));
    expect_timeout(m.step(Event::Read { bytes: vec![0x42], now_ms: 60_001 }));
}

fn kw2_get_to_await_data() -> vcontrol::protocol::Kw2Get {
    let (mut m, _io) = Kw2::get(0x1234, 4, 60_000);
    expect_write(m.step(Event::Purged { now_ms: 0 }));
    expect_read(m.step(Event::Wrote { now_ms: 1 }));
    expect_purge(m.step(Event::Read { bytes: vec![0x05], now_ms: 2 }));
    expect_write(m.step(Event::Purged { now_ms: 3 }));
    assert_eq!(expect_read(m.step(Event::Wrote { now_ms: 4 })), 4);
    m
}

#[test]
fn kw2_get_fast_sync_run_is_accepted_as_data() {
    // Four sync bytes within 10 ms: far under 500 ms x 4, so they cannot be
    // the device's idle sync cadence and count as genuine data.
    let mut m = kw2_get_to_await_data();
    let data = expect_done(m.step(Event::Read { bytes: vec![0x05; 4], now_ms: 14 }));
    assert_eq!(data, vec![0x05; 4]);
}

#[test]
fn kw2_get_slow_sync_run_is_retried() {
    // Four sync bytes arriving only after seconds are suspect: the exchange
    // is purged and the request sent again.
    let mut m = kw2_get_to_await_data();
    expect_purge(m.step(Event::Read { bytes: vec![0x05; 4], now_ms: 3_004 }));
    assert_eq!(
        expect_write(m.step(Event::Purged { now_ms: 3_005 })),
        vec![0x01, 0xf7, 0x12, 0x34, 0x04]
    );
    assert_eq!(expect_read(m.step(Event::Wrote { now_ms: 3_006 })), 4);
    // A retry that keeps stalling past the timeout gives up.
    expect_timeout(m.step(Event::Read { bytes: vec![0x05; 4], now_ms: 66_000 }));
}

#[test]
fn kw2_set_request_and_confirmation() {
    let (mut m, io) = Kw2::set(0x2345, vec![0xaa, 0xbb], 60_000);
    assert!(matches!(io, Io::Purge));
    expect_write(m.step(Event::Purged { now_ms: 0 }));
    expect_read(m.step(Event::Wrote { now_ms: 1 }));
    expect_purge(m.step(Event::Read { bytes: vec![0x05], now_ms: 2 }));
    assert_eq!(
        expect_write(m.step(Event::Purged { now_ms: 3 })),
        vec![0x01, 0xf4, 0x23, 0x45, 0x02, 0xaa, 0xbb]
    );
    assert_eq!(expect_read(m.step(Event::Wrote { now_ms: 4 })), 1);
    // A non-zero status has the request sent again.
    assert_eq!(
        expect_write(m.step(Event::Read { bytes: vec![0x01], now_ms: 5 })),
        vec![0x01, 0xf4, 0x23, 0x45, 0x02, 0xaa, 0xbb]
    );
    assert_eq!(expect_read(m.step(Event::Wrote { now_ms: 6 })), 1);
    // Status zero confirms the write.
    let done = expect_done(m.step(Event::Read { bytes: vec![0x00], now_ms: 7 }));
    assert!(done.is_empty());
}

#[test]
fn kw2_negotiate_purges_and_resets() {
    let (mut m, io) = Kw2::negotiate();
    assert!(matches!(io, Io::Purge));
    assert_eq!(expect_write(m.step(Event::Purged { now_ms: 0 })), vec![0x04]);
    let done = expect_done(m.step(Event::Wrote { now_ms: 1 }));
    assert!(done.is_empty());
}
