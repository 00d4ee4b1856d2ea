use atk_mouse::command::Command;
use atk_mouse::dpi::{dpi_encodable, Color, Dpi, DpiColorProfile, Pair, Preset, Slot};
use atk_mouse::ids::EEPROMAddress;
use atk_mouse::Error;

#[test]
fn dpi_encode_1650() {
    // steps = 1650/50 - 1 = 32 = 0x20; dpi_ex = 0x44*32/256 = 8;
    // field checksum = 0x55 - 0x20 - 0x20 - 0x08 = 0x0d.
    let bytes = Dpi::new(1650).to_bytes();
    assert_eq!(bytes, [0x20, 0x20, 0x08, 0x0d]);
}

#[test]
fn dpi_decode_of_encoded_1650_is_lossy() {
    // The firmware's truncating inverse: decoding the encoding of 1650
    // lands on ((256*8/0x44) + 0x20 + 1) * 50 = (30 + 33) * 50 = 3150,
    // a known non-bijective band of the mapping.
    let bytes = Dpi::new(1650).to_bytes();
    let decoded = Dpi::try_from(&bytes).unwrap();
    assert_eq!(decoded.dpi(), 3150);
}

#[test]
fn dpi_round_trip_low_step_band() {
    // Step counts whose low byte is at most three round-trip exactly.
    for &dpi in &[50u16, 100, 150, 200, 12850, 12900, 25650, 38450] {
        let bytes = Dpi::new(dpi).to_bytes();
        let decoded = Dpi::try_from(&bytes).unwrap();
        assert_eq!(decoded.dpi(), dpi, "round trip failed for {dpi}");
    }
}

#[test]
fn dpi_encode_multi_byte_steps() {
    // 12850: steps = 256, low byte 0, dpi_ex = 0x44*256/256 = 0x44.
    let bytes = Dpi::new(12850).to_bytes();
    assert_eq!(bytes, [0x00, 0x00, 0x44, 0x11]);
}

#[test]
fn dpi_decode_rejects_bad_checksum() {
    let r = Dpi::try_from(&[0x20, 0x20, 0x08, 0x00]);
    assert_eq!(r.unwrap_err(), Error::ChecksumError);
}

#[test]
fn dpi_decode_rejects_wrong_length() {
    let r = Dpi::try_from(&[0x20, 0x20, 0x08]);
    assert_eq!(r.unwrap_err(), Error::LengthMismatch);
}

#[test]
fn dpi_encodable_bounds() {
    assert!(!dpi_encodable(0));
    assert!(!dpi_encodable(49));
    assert!(dpi_encodable(50));
    assert!(dpi_encodable(48249));
    assert!(!dpi_encodable(48250));
    assert!(!dpi_encodable(u16::MAX));
}

#[test]
fn color_encode_orange() {
    // 0x55 - 0xff - 0x80 - 0x00 wraps to 0xd6.
    let bytes = Color::new(255, 128, 0).to_bytes();
    assert_eq!(bytes, [0xff, 0x80, 0x00, 0xd6]);
    let decoded = Color::try_from(&bytes).unwrap();
    assert_eq!((decoded.red, decoded.green, decoded.blue), (255, 128, 0));
}

#[test]
fn color_round_trip_edges() {
    for &(r, g, b) in &[(0u8, 0u8, 0u8), (255, 255, 255), (1, 2, 3), (0x55, 0, 0)] {
        let c = Color::new(r, g, b);
        let decoded = Color::try_from(&c.to_bytes()).unwrap();
        assert_eq!(decoded, c);
    }
}

#[test]
fn color_black_checksum() {
    assert_eq!(Color::new(0, 0, 0).to_bytes(), [0, 0, 0, 0x55]);
}

#[test]
fn color_decode_rejects_bad_checksum() {
    let r = Color::try_from(&[1, 2, 3, 4]);
    assert_eq!(r.unwrap_err(), Error::ChecksumError);
}

#[test]
fn preset_folds_into_pairs_and_slots() {
    // pair = index / 2, slot = index % 2.
    let table = [
        (Preset::Preset1, Pair::Pair1, Slot::First),
        (Preset::Preset2, Pair::Pair1, Slot::Second),
        (Preset::Preset3, Pair::Pair2, Slot::First),
        (Preset::Preset4, Pair::Pair2, Slot::Second),
        (Preset::Preset5, Pair::Pair3, Slot::First),
        (Preset::Preset6, Pair::Pair3, Slot::Second),
        (Preset::Preset7, Pair::Pair4, Slot::First),
        (Preset::Preset8, Pair::Pair4, Slot::Second),
    ];
    for &(preset, pair, slot) in &table {
        assert_eq!(preset.pair(), pair);
        assert_eq!(preset.slot(), slot);
    }
}

#[test]
fn preset_index_out_of_range() {
    assert_eq!(Preset::try_from(7).unwrap(), Preset::Preset8);
    assert_eq!(Preset::try_from(8).unwrap_err(), Error::InvalidEnumValue);
}

#[test]
fn pair_addresses() {
    assert_eq!(Pair::Pair1.dpi_eeprom_address(), EEPROMAddress::DpiPair1);
    assert_eq!(Pair::Pair4.dpi_eeprom_address(), EEPROMAddress::DpiPair7);
    assert_eq!(Pair::Pair1.color_eeprom_address(), EEPROMAddress::DpiPair1Color);
    assert_eq!(Pair::Pair4.color_eeprom_address(), EEPROMAddress::DpiPair7Color);
    assert_eq!(Pair::try_from(EEPROMAddress::DpiPair5Color).unwrap(), Pair::Pair3);
    assert_eq!(
        Pair::try_from(EEPROMAddress::ReportRate).unwrap_err(),
        Error::InvalidEnumValue
    );
}

#[test]
fn slot_offsets() {
    assert_eq!(Slot::First.offset(), 0);
    assert_eq!(Slot::Second.offset(), 4);
}

#[test]
fn color_pair_query_and_payload_windows() {
    let query = Command::<DpiColorProfile>::query(Pair::Pair2);
    let bytes = query.as_bytes();
    assert_eq!(bytes[0x0], 0x08);
    assert_eq!(bytes[0x3], 0x34); // DpiPair3Color
    assert_eq!(bytes[0x4], 0x08);

    let mut raw = [0u8; 16];
    raw[0x4] = 0x08;
    raw[0x5..0x9].copy_from_slice(&[10, 20, 30, 0x19]);
    raw[0x9..0xd].copy_from_slice(&[0, 0, 0, 0x55]);
    let resp = Command::<DpiColorProfile>::try_from(&raw).unwrap();
    let (first, second) = resp.colors().unwrap();
    assert_eq!(first, Color::new(10, 20, 30));
    assert_eq!(second, Color::new(0, 0, 0));
}
