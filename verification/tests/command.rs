use vcontrol::{AccessMode, Command, Error, Unit, Value};

fn bit_command(bit_pos: usize, bit_len: usize) -> Command {
    Command::new(
        0x1234,
        AccessMode::Read,
        Unit::U8,
        None,
        None,
        0,
        Some(bit_pos),
        Some(bit_len),
        None,
    )
    .unwrap()
}

#[test]
fn access_modes() {
    assert!(AccessMode::Read.is_read());
    assert!(!AccessMode::Read.is_write());
    assert!(AccessMode::Write.is_write());
    assert!(!AccessMode::Write.is_read());
    assert!(AccessMode::ReadWrite.is_read());
    assert!(AccessMode::ReadWrite.is_write());
}

#[test]
fn bit_extraction_reads_bits_msb_first() {
    // bit_pos 10, bit_len 2: bits 2 and 3 of the second byte, MSB first.
    let cmd = bit_command(10, 2);
    let buf = [0x00, 0b0010_0000];
    match cmd.get_decode(&buf).unwrap() {
        Value::Number(n) => assert_eq!(n, 0b10),
        _ => panic!("expected a number"),
    }
}

#[test]
fn bit_extraction_ignores_other_bits() {
    let cmd = bit_command(10, 2);
    // Bits 2..4 of the second byte are 1,0 in both buffers; every other bit
    // differs.
    let va = match cmd.get_decode(&[0x00, 0b0010_0000]).unwrap() {
        Value::Number(n) => n,
        _ => panic!("expected a number"),
    };
    let vb = match cmd.get_decode(&[0xff, 0b1110_1111]).unwrap() {
        Value::Number(n) => n,
        _ => panic!("expected a number"),
    };
    assert_eq!(va, 0b10);
    assert_eq!(vb, 0b10);
}

#[test]
fn bit_extraction_single_bit_default() {
    // bit_len omitted: a single bit.
    let cmd = Command::new(
        0x0000,
        AccessMode::Read,
        Unit::U8,
        None,
        None,
        0,
        Some(7),
        None,
        None,
    )
    .unwrap();
    match cmd.get_decode(&[0b0000_0001]).unwrap() {
        Value::Number(n) => assert_eq!(n, 1),
        _ => panic!("expected a number"),
    }
    match cmd.get_decode(&[0b1111_1110]).unwrap() {
        Value::Number(n) => assert_eq!(n, 0),
        _ => panic!("expected a number"),
    }
}

#[test]
fn byte_sub_addressing() {
    let cmd = Command::new(
        0x5555,
        AccessMode::Read,
        Unit::U16,
        Some(6),
        None,
        2,
        None,
        None,
        None,
    )
    .unwrap();
    assert_eq!(cmd.block_len(), 6);
    let buf = [0x00, 0x11, 0x34, 0x12, 0x44, 0x55];
    match cmd.get_decode(&buf).unwrap() {
        Value::Number(n) => assert_eq!(n, 0x1234),
        _ => panic!("expected a number"),
    }
}

#[test]
fn geometry_that_does_not_fit_is_rejected() {
    // The addressed range leaves the block.
    assert!(matches!(
        Command::new(0, AccessMode::Read, Unit::U16, Some(2), None, 1, None, None, None),
        Err(Error::InvalidArgument(_))
    ));
    // A bit field leaving its byte.
    assert!(matches!(
        Command::new(0, AccessMode::Read, Unit::U8, None, None, 0, Some(6), Some(4), None),
        Err(Error::InvalidArgument(_))
    ));
    // A bit-sliced command with a wider unit.
    assert!(matches!(
        Command::new(0, AccessMode::Read, Unit::U16, None, None, 0, Some(0), Some(2), None),
        Err(Error::InvalidArgument(_))
    ));
}

#[test]
fn mode_gates_the_directions() {
    let cmd = Command::new(
        0x2345,
        AccessMode::Write,
        Unit::U8,
        None,
        None,
        0,
        None,
        None,
        None,
    )
    .unwrap();
    assert!(matches!(cmd.read_plan(), Err(Error::UnsupportedMode(_))));
    let (addr, bytes) = cmd.write_plan(&Value::Number(7)).unwrap();
    assert_eq!(addr, 0x2345);
    assert_eq!(bytes, vec![7]);

    let ro = Command::new(
        0x2345,
        AccessMode::Read,
        Unit::U8,
        None,
        None,
        0,
        None,
        None,
        None,
    )
    .unwrap();
    assert!(matches!(ro.write_plan(&Value::Number(7)), Err(Error::UnsupportedMode(_))));
    let (addr, len) = ro.read_plan().unwrap();
    assert_eq!(addr, 0x2345);
    assert_eq!(len, 1);
}
