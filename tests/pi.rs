use rustpi_io::pi::{
    board_info, decode_revision, parse_hex, revision_code, Manufacturer, MemorySize, Processor,
    RevisionError, RevisionStyle, Type,
};

#[test]
fn field_tables() {
    assert_eq!(RevisionStyle::from(0), Some(RevisionStyle::Old));
    assert_eq!(RevisionStyle::from(1), Some(RevisionStyle::New));
    assert_eq!(RevisionStyle::from(2), None);
    assert_eq!(MemorySize::from(2), Some(MemorySize::MB1024));
    assert_eq!(MemorySize::from(3), None);
    assert_eq!(Manufacturer::from(3), Some(Manufacturer::SonyJapan));
    assert_eq!(Manufacturer::from(4), None);
    assert_eq!(Processor::from(1), Some(Processor::BCM2836));
    assert_eq!(Processor::from(3), None);
    assert_eq!(Type::from(7), None);
    assert_eq!(Type::from(8), Some(Type::B3));
    assert_eq!(Type::from(12), Some(Type::ZeroW));
    assert_eq!(Type::ZeroW.name(), "ZeroW");
    assert_eq!(MemorySize::MB512.name(), "512MB");
}

#[test]
fn decode_pi3_code() {
    assert_eq!(
        decode_revision(0xa02082),
        Ok((MemorySize::MB1024, Manufacturer::SonyUK, Processor::BCM2837, Type::B3, 2))
    );
    assert_eq!(decode_revision(0x0010), Err(RevisionError::OldRevisionStyle));
    assert_eq!(decode_revision(0xb02082), Err(RevisionError::UnknownField));
}

#[test]
fn parse_cpuinfo_text() {
    let text = b"processor\t: 0\nHardware\t: BCM2835\nRevision\t: a22082\nSerial\t\t: 00000000\n";
    assert_eq!(revision_code(text), Some(0xa22082));
    assert_eq!(
        board_info(text),
        Ok((MemorySize::MB1024, Manufacturer::Embest, Processor::BCM2837, Type::B3, 2))
    );
}

#[test]
fn last_revision_line_wins() {
    let text = b"Revision : 0002\nRevision : 9000c1\n";
    assert_eq!(revision_code(text), Some(0x9000c1));
    assert_eq!(
        board_info(text),
        Ok((MemorySize::MB512, Manufacturer::SonyUK, Processor::BCM2835, Type::ZeroW, 1))
    );
}

#[test]
fn missing_or_bad_revision() {
    assert_eq!(board_info(b"Hardware : BCM2835\n"), Err(RevisionError::NoRevisionCode));
    assert_eq!(revision_code(b"Revision :"), None);
    assert_eq!(revision_code(b"Revision : xyz"), None);
    assert_eq!(revision_code(b"Revision : 100000000"), None);
    assert_eq!(board_info(b"Revision : 0010"), Err(RevisionError::OldRevisionStyle));
}

#[test]
fn hex_numbers() {
    let t = b"+ffFF +";
    assert_eq!(parse_hex(t, 0, 5), Some(0xffff));
    assert_eq!(parse_hex(t, 1, 5), Some(0xffff));
    assert_eq!(parse_hex(t, 6, 7), None);
    assert_eq!(parse_hex(t, 0, 0), None);
    assert_eq!(parse_hex(b"ffffffff", 0, 8), Some(u32::MAX));
    assert_eq!(parse_hex(b"-1", 0, 2), None);
}
