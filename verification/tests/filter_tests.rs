use hci_stream::codes::{EventCode, PacketType};
use hci_stream::filter::{Filter, FILTER_LEN};
use hci_stream::opcode::Opcode;

fn event(code: u8) -> EventCode {
    EventCode::try_from(code).unwrap()
}

#[test]
fn packet_type_round_trips_for_all_valid_bytes() {
    for &(byte, pt) in &[
        (0x01u8, PacketType::Command),
        (0x02, PacketType::ACLData),
        (0x03, PacketType::SCOData),
        (0x04, PacketType::Event),
        (0xFF, PacketType::Vendor),
    ] {
        let converted = PacketType::try_from(byte).unwrap();
        assert_eq!(converted, pt);
        assert_eq!(converted.to_u8(), byte);
        assert_eq!(converted.to_u32(), byte as u32);
    }
}

#[test]
fn packet_type_rejects_every_other_byte() {
    for byte in 0u8..=254 {
        let valid = matches!(byte, 0x01 | 0x02 | 0x03 | 0x04);
        assert_eq!(PacketType::try_from(byte).is_ok(), valid, "byte {byte}");
    }
    assert!(PacketType::try_from(0xFF).is_ok());
}

#[test]
fn event_code_bounds() {
    assert!(EventCode::try_from(0x00).is_err());
    assert!(EventCode::try_from(0x01).is_ok());
    assert!(EventCode::try_from(0x3F).is_ok());
    assert!(EventCode::try_from(0x40).is_err());
    assert!(EventCode::try_from(0xFF).is_err());
    assert_eq!(EventCode::command_complete().to_u8(), 0x0E);
    assert_eq!(EventCode::command_status().to_u8(), 0x0F);
}

#[test]
fn opcode_pack_and_unpack() {
    let op = Opcode::new(0x01, 0x0002).unwrap();
    assert_eq!(op.to_u16(), 0x0402);
    let bytes = [0x02u8, 0x04];
    assert_eq!(Opcode::unpack(&bytes).unwrap(), op);
    assert_eq!(Opcode::default().to_u16(), 0);
}

#[test]
fn opcode_rejects_unrecognized_groups() {
    // group 0x3E (bytes 0x00, 0xF8) and group 0x07 (bytes 0x00, 0x1C)
    assert!(Opcode::unpack(&[0x00, 0xF8]).is_err());
    assert!(Opcode::unpack(&[0x00, 0x1C]).is_err());
    assert!(Opcode::unpack(&[0x00]).is_err());
    assert!(Opcode::unpack(&[0x00, 0x04, 0x00]).is_err());
    assert!(Opcode::new(0x07, 0).is_err());
    assert!(Opcode::new(0x01, 0x400).is_err());
    assert!(Opcode::try_from_u16(0xF800).is_err());
    assert!(Opcode::try_from_u16(0x0402).is_ok());
}

#[test]
fn default_filter_is_all_zero() {
    let f = Filter::default();
    assert_eq!(f.pack(), vec![0u8; FILTER_LEN]);
    assert_eq!(f.opcode().to_u16(), 0);
    assert!(!f.get_type(PacketType::Command));
    assert!(!f.get_event(event(0x0E)));
}

#[test]
fn pack_has_the_fixed_little_endian_layout() {
    let mut f = Filter::default();
    f.enable_type(PacketType::Command);
    f.enable_type(PacketType::Event);
    f.enable_event(event(0x0E));
    f.enable_event(event(0x0F));
    f.enable_event(event(40));
    *f.opcode_mut() = Opcode::new(0x01, 0x0002).unwrap();
    let packed = f.pack();
    assert_eq!(
        packed,
        vec![
            0x12, 0x00, 0x00, 0x00, // type mask: bits 1 and 4
            0x00, 0xC0, 0x00, 0x00, // event mask low: bits 14 and 15
            0x00, 0x01, 0x00, 0x00, // event mask high: bit 8 (event 40)
            0x02, 0x04, // opcode 0x0402
        ]
    );
}

#[test]
fn pack_then_unpack_reproduces_the_filter() {
    let mut f = Filter::default();
    f.enable_type(PacketType::Command);
    f.enable_type(PacketType::Event);
    f.enable_event(event(0x0E));
    f.enable_event(event(0x0F));
    f.enable_event(event(63));
    *f.opcode_mut() = Opcode::new(0x3F, 0x03FF).unwrap();
    let unpacked = Filter::unpack(&f.pack()).unwrap();
    assert_eq!(unpacked, f);

    let g = Filter::default();
    assert_eq!(Filter::unpack(&g.pack()).unwrap(), g);

    let mut h = Filter::default();
    h.enable_event(event(32));
    *h.opcode_mut() = Opcode::new(0x08, 0x0001).unwrap();
    assert_eq!(Filter::unpack(&h.pack()).unwrap(), h);
}

#[test]
fn unpack_rejects_wrong_lengths() {
    assert!(Filter::unpack(&[0u8; 13]).is_none());
    assert!(Filter::unpack(&[0u8; 15]).is_none());
    assert!(Filter::unpack(&[]).is_none());
    assert!(Filter::unpack(&[0u8; 14]).is_some());
}

#[test]
fn unpack_rejects_an_invalid_embedded_opcode() {
    let mut bytes = [0u8; 14];
    bytes[12] = 0x00;
    bytes[13] = 0xF8; // opcode group 0x3E: unrecognized
    assert!(Filter::unpack(&bytes).is_none());
}

#[test]
fn event_mask_toggling_across_the_word_boundary() {
    let mut f = Filter::default();
    f.enable_event(event(40));
    assert!(f.get_event(event(40)));
    assert!(!f.get_event(event(1)));
    f.enable_event(event(1));
    assert!(f.get_event(event(1)));
    assert!(f.get_event(event(40)));
    f.disable_event(event(40));
    assert!(!f.get_event(event(40)));
    assert!(f.get_event(event(1)), "low-word bit must survive a high-word toggle");
    // boundary values
    f.enable_event(event(31));
    f.enable_event(event(32));
    f.enable_event(event(63));
    assert!(f.get_event(event(31)));
    assert!(f.get_event(event(32)));
    assert!(f.get_event(event(63)));
    f.disable_event(event(32));
    assert!(f.get_event(event(31)));
    assert!(!f.get_event(event(32)));
    assert!(f.get_event(event(63)));
}

#[test]
fn type_mask_toggling() {
    let mut f = Filter::default();
    f.enable_type(PacketType::Command);
    assert!(f.get_type(PacketType::Command));
    assert!(!f.get_type(PacketType::Event));
    f.enable_type(PacketType::Event);
    f.disable_type(PacketType::Command);
    assert!(!f.get_type(PacketType::Command));
    assert!(f.get_type(PacketType::Event));
}

#[test]
fn opcode_field_access() {
    let mut f = Filter::default();
    let op = Opcode::new(0x03, 0x0003).unwrap();
    *f.opcode_mut() = op;
    assert_eq!(f.opcode(), op);
    let packed = f.pack();
    assert_eq!(&packed[12..14], &op.to_u16().to_le_bytes());
}
