use vcontrol::protocol::{Event, Io, Next};
use vcontrol::{
    AccessMode, Command, Device, Error, GetExchange, ProtocolKind, Unit, VControl, Value,
};

fn plain_command(addr: u16, mode: AccessMode, unit: Unit) -> Command {
    Command::new(addr, mode, unit, None, None, 0, None, None, None).unwrap()
}

fn sample_device(protocol: ProtocolKind) -> Device {
    Device::new(
        String::from("test model"),
        protocol,
        vec![
            (
                String::from("outside_temperature"),
                plain_command(0x5525, AccessMode::Read, Unit::I16),
            ),
            (
                String::from("operating_mode"),
                plain_command(0x2323, AccessMode::ReadWrite, Unit::U8),
            ),
            (String::from("reset_counter"), plain_command(0x0808, AccessMode::Write, Unit::U8)),
        ],
    )
    .unwrap()
}

#[test]
fn unsupported_command_reported_without_an_exchange() {
    // A name absent from the table fails before any exchange is built, so
    // the transport is never touched.
    let vc = VControl::new(sample_device(ProtocolKind::Kw2));
    assert!(matches!(
        vc.get_exchange("boiler_pressure"),
        Err(Error::UnsupportedCommand(_))
    ));
    assert!(matches!(
        vc.set_exchange("boiler_pressure", &Value::Number(1)),
        Err(Error::UnsupportedCommand(_))
    ));
    assert!(matches!(
        vc.get_decode("boiler_pressure", &[0x00]),
        Err(Error::UnsupportedCommand(_))
    ));
}

#[test]
fn unsupported_mode_reported_without_an_exchange() {
    let vc = VControl::new(sample_device(ProtocolKind::Kw2));
    assert!(matches!(vc.get_exchange("reset_counter"), Err(Error::UnsupportedMode(_))));
    assert!(matches!(
        vc.set_exchange("outside_temperature", &Value::Number(1)),
        Err(Error::UnsupportedMode(_))
    ));
}

#[test]
fn device_rejects_duplicate_names() {
    let dup = Device::new(
        String::from("broken"),
        ProtocolKind::Kw2,
        vec![
            (String::from("a"), plain_command(1, AccessMode::Read, Unit::U8)),
            (String::from("a"), plain_command(2, AccessMode::Read, Unit::U8)),
        ],
    );
    assert!(matches!(dup, Err(Error::InvalidArgument(_))));
}

#[test]
fn device_lists_its_commands() {
    let d = sample_device(ProtocolKind::P300);
    assert_eq!(d.name(), "test model");
    assert_eq!(d.protocol(), ProtocolKind::P300);
    assert_eq!(
        d.commands(),
        vec![
            String::from("outside_temperature"),
            String::from("operating_mode"),
            String::from("reset_counter"),
        ]
    );
    assert!(d.command("operating_mode").is_some());
    assert!(d.command("boiler_pressure").is_none());
}

#[test]
fn kw2_get_exchange_end_to_end() {
    let vc = VControl::new(sample_device(ProtocolKind::Kw2));
    let (ex, io) = vc.get_exchange("outside_temperature").unwrap();
    assert!(matches!(io, Io::Purge));
    let mut m = match ex {
        GetExchange::Kw2(m) => m,
        _ => panic!("expected the polling protocol"),
    };
    // Drive the whole exchange against a scripted device.
    match m.step(Event::Purged { now_ms: 0 }) {
        Next::Io(Io::Write(b)) => assert_eq!(b, vec![0x04]),
        other => panic!("unexpected {:?}", other),
    }
    assert!(matches!(m.step(Event::Wrote { now_ms: 1 }), Next::Io(Io::Read(1))));
    assert!(matches!(
        m.step(Event::Read { bytes: vec![0x05], now_ms: 2 }),
        Next::Io(Io::Purge)
    ));
    match m.step(Event::Purged { now_ms: 3 }) {
        Next::Io(Io::Write(b)) => assert_eq!(b, vec![0x01, 0xf7, 0x55, 0x25, 0x02]),
        other => panic!("unexpected {:?}", other),
    }
    assert!(matches!(m.step(Event::Wrote { now_ms: 4 }), Next::Io(Io::Read(2))));
    let block = match m.step(Event::Read { bytes: vec![0xfe, 0xff], now_ms: 5 }) {
        Next::Done(b) => b,
        other => panic!("unexpected {:?}", other),
    };
    // Raw reading -2; the display factor is the caller's concern.
    match vc.get_decode("outside_temperature", &block).unwrap() {
        Value::Number(n) => assert_eq!(n, -2),
        _ => panic!("expected a number"),
    }
}

#[test]
fn p300_get_exchange_end_to_end() {
    let vc = VControl::new(sample_device(ProtocolKind::P300));
    let (ex, io) = vc.get_exchange("outside_temperature").unwrap();
    let mut m = match ex {
        GetExchange::P300(m) => m,
        _ => panic!("expected the telegram protocol"),
    };
    // Request telegram for two bytes at 0x5525.
    match io {
        Io::Write(b) => {
            assert_eq!(b[..7], [0x41, 0x05, 0x00, 0x01, 0x55, 0x25, 0x02]);
        },
        other => panic!("unexpected {:?}", other),
    }
    assert!(matches!(m.step(Event::Wrote { now_ms: 0 }), Next::Io(Io::Read(1))));
    // The device acknowledges and answers with a framed response.
    assert!(matches!(
        m.step(Event::Read { bytes: vec![0x06], now_ms: 1 }),
        Next::Io(Io::Read(1))
    ));
    assert!(matches!(
        m.step(Event::Read { bytes: vec![0x41], now_ms: 2 }),
        Next::Io(Io::Read(1))
    ));
    assert!(matches!(
        m.step(Event::Read { bytes: vec![0x07], now_ms: 3 }),
        Next::Io(Io::Read(7))
    ));
    let response = vec![0x01, 0x01, 0x55, 0x25, 0x02, 0xfe, 0xff];
    let sum = vcontrol::protocol::checksum(&response);
    assert!(matches!(
        m.step(Event::Read { bytes: response, now_ms: 4 }),
        Next::Io(Io::Read(1))
    ));
    match m.step(Event::Read { bytes: vec![sum], now_ms: 5 }) {
        Next::Io(Io::Write(b)) => assert_eq!(b, vec![0x06]),
        other => panic!("unexpected {:?}", other),
    }
    let block = match m.step(Event::Wrote { now_ms: 6 }) {
        Next::Done(b) => b,
        other => panic!("unexpected {:?}", other),
    };
    match vc.get_decode("outside_temperature", &block).unwrap() {
        Value::Number(n) => assert_eq!(n, -2),
        _ => panic!("expected a number"),
    }
}

#[test]
fn get_decode_checks_the_block_length() {
    let vc = VControl::new(sample_device(ProtocolKind::Kw2));
    assert!(matches!(
        vc.get_decode("outside_temperature", &[0x01]),
        Err(Error::InvalidArgument(_))
    ));
}

#[test]
fn set_exchange_encodes_the_value() {
    let vc = VControl::new(sample_device(ProtocolKind::P300));
    let (ex, io) = vc.set_exchange("operating_mode", &Value::Number(2)).unwrap();
    match ex {
        vcontrol::SetExchange::P300(m) => {
            assert_eq!(m.addr, 0x2323);
            assert_eq!(m.value, vec![0x02]);
        },
        _ => panic!("expected the telegram protocol"),
    }
    match io {
        Io::Write(b) => assert_eq!(b[0], 0x41),
        other => panic!("unexpected {:?}", other),
    }
    // A value of the wrong kind never builds an exchange.
    assert!(matches!(
        vc.set_exchange("operating_mode", &Value::String(String::from("2"))),
        Err(Error::InvalidArgument(_))
    ));
}
