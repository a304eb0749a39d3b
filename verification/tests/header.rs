use hp_mouse_configurator::bits::{high_nibble, low_nibble, u16_from_bytes};
use hp_mouse_configurator::{Header, PacketKind, HP_SIGNATURE};

#[test]
fn u16_from_bytes_is_little_endian() {
    assert_eq!(u16_from_bytes(0xE8, 0x03), 1000);
    assert_eq!(u16_from_bytes(0x00, 0x01), 256);
    assert_eq!(u16_from_bytes(0xFF, 0xFF), 0xFFFF);
    assert_eq!(u16_from_bytes(0, 0), 0);
}

#[test]
fn nibbles_split_a_byte() {
    assert_eq!(low_nibble(0x35), 5);
    assert_eq!(high_nibble(0x35), 3);
    assert_eq!(low_nibble(0xF0), 0);
    assert_eq!(high_nibble(0xF0), 15);
}

#[test]
fn header_fields_are_extracted_bitwise() {
    let header = Header::new(&[0x06, 0x2F, 0x05, 0x04]).unwrap();
    assert_eq!(header.signature, 0x0F06);
    assert_eq!(header.composite_device, 2);
    assert_eq!(header.length, 5);
    assert_eq!(header.sequence, 1);
}

#[test]
fn header_fields_reach_their_maxima() {
    let header = Header::new(&[0xFF, 0xFF, 0xFF, 0xFF]).unwrap();
    assert_eq!(header.signature, 0x0FFF);
    assert_eq!(header.composite_device, 15);
    assert_eq!(header.length, 1023);
    assert_eq!(header.sequence, 63);
}

#[test]
fn header_length_uses_two_bits_of_the_fourth_byte() {
    let header = Header::new(&[0x01, 0x0F, 0x2C, 0x09]).unwrap();
    assert_eq!(header.length, 0x12C);
    assert_eq!(header.sequence, 2);
}

#[test]
fn header_ignores_bytes_after_the_fourth() {
    let short = Header::new(&[0x06, 0x0F, 0x05, 0x00]).unwrap();
    let long = Header::new(&[0x06, 0x0F, 0x05, 0x00, 1, 2, 3]).unwrap();
    assert_eq!(short, long);
}

#[test]
fn header_needs_four_bytes() {
    assert_eq!(Header::new(&[]), None);
    assert_eq!(Header::new(&[0x06]), None);
    assert_eq!(Header::new(&[0x06, 0x0F, 0x05]), None);
}

#[test]
fn kind_is_offset_from_signature_base() {
    assert_eq!(HP_SIGNATURE, 0x0F00);
    let header = Header::new(&[0x06, 0x0F, 0x05, 0x00]).unwrap();
    assert_eq!(header.kind(), Some(6));
    let base = Header::new(&[0x00, 0x0F, 0x00, 0x00]).unwrap();
    assert_eq!(base.kind(), Some(0));
    let top = Header::new(&[0xFF, 0x0F, 0x00, 0x00]).unwrap();
    assert_eq!(top.kind(), Some(255));
}

#[test]
fn kind_is_absent_below_signature_base() {
    let header = Header::new(&[0xFF, 0x0E, 0x05, 0x00]).unwrap();
    assert_eq!(header.signature, 0x0EFF);
    assert_eq!(header.kind(), None);
    let zero = Header::new(&[0, 0, 0, 0]).unwrap();
    assert_eq!(zero.kind(), None);
}

#[test]
fn packet_kinds_are_the_four_known_numbers() {
    assert_eq!(PacketKind::from_kind(1), Some(PacketKind::Firmware));
    assert_eq!(PacketKind::from_kind(6), Some(PacketKind::Battery));
    assert_eq!(PacketKind::from_kind(14), Some(PacketKind::Buttons));
    assert_eq!(PacketKind::from_kind(18), Some(PacketKind::Mouse));
    for kind in [0u16, 2, 5, 7, 13, 15, 17, 19, 255, 1000] {
        assert_eq!(PacketKind::from_kind(kind), None);
    }
}
