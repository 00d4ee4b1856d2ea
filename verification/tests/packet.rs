use atk_mouse::command::Command;
use atk_mouse::dpi::{DpiProfile, Pair};
use atk_mouse::ids::{CommandId, EEPROMAddress};
use atk_mouse::mouse_info::MouseInfo;
use atk_mouse::Error;

/// The packet checksum recomputed by hand: `0x55 - ((report_id +
/// sum(bytes[0..15])) mod 256)`, wrapping.
fn expected_checksum(report_id: u8, bytes: &[u8]) -> u8 {
    let sum: u16 = bytes[..15].iter().map(|&b| b as u16).sum();
    let masked = ((report_id as u16 + sum) & 0xff) as u8;
    0x55u8.wrapping_sub(masked)
}

#[test]
fn checksum_recomputed_after_every_mutation() {
    let mut cmd = Command::<MouseInfo>::default();
    cmd.set_id(CommandId::GetEEPROM);
    assert_eq!(cmd.checksum(), expected_checksum(0x8, cmd.as_bytes()));
    // report 8 + id 8 = 16; 0x55 - 0x10 = 0x45.
    assert_eq!(cmd.checksum(), 0x45);

    cmd.set_eeprom_address(EEPROMAddress::StabilizationTime);
    assert_eq!(cmd.checksum(), expected_checksum(0x8, cmd.as_bytes()));

    cmd.set_valid_data_len(0x6);
    assert_eq!(cmd.checksum(), expected_checksum(0x8, cmd.as_bytes()));

    cmd.set_status(0x37);
    assert_eq!(cmd.checksum(), expected_checksum(0x8, cmd.as_bytes()));

    cmd.set_byte_pair(0x12, 0x7).unwrap();
    assert_eq!(cmd.checksum(), expected_checksum(0x8, cmd.as_bytes()));
}

#[test]
fn byte_pair_writes_value_and_complement() {
    let mut cmd = Command::<MouseInfo>::default();
    cmd.set_id(CommandId::SetEEPROM);
    cmd.set_byte_pair(0xab, 0x5).unwrap();
    let bytes = cmd.as_bytes();
    assert_eq!(bytes[0x5], 0xab);
    // 0x55 - 0xab wraps to 0xaa.
    assert_eq!(bytes[0x6], 0xaa);
}

#[test]
fn byte_pair_rejects_offset_below_base() {
    let mut cmd = Command::<MouseInfo>::default();
    let before = cmd.as_bytes().to_vec();
    assert_eq!(cmd.set_byte_pair(0x01, 0x4).unwrap_err(), Error::OffsetBelowBase);
    assert_eq!(cmd.as_bytes(), &before[..]);
}

#[test]
fn byte_pair_rejects_offset_out_of_range() {
    let mut cmd = Command::<MouseInfo>::default();
    assert_eq!(cmd.set_byte_pair(0x01, 0xe).unwrap_err(), Error::OffsetOutOfRange);
    assert_eq!(cmd.set_byte_pair(0x01, 0xff).unwrap_err(), Error::OffsetOutOfRange);
    // The last writable pair starts at byte 13.
    assert!(cmd.set_byte_pair(0x01, 0xd).is_ok());
    assert_eq!(cmd.as_bytes()[0xd], 0x01);
    assert_eq!(cmd.as_bytes()[0xe], 0x54);
}

#[test]
fn byte_pair_rejects_unaligned_offset() {
    let mut cmd = Command::<MouseInfo>::default();
    assert_eq!(cmd.set_byte_pair(0x01, 0x6).unwrap_err(), Error::UnalignedOffset);
    assert_eq!(cmd.set_byte_pair(0x01, 0x8).unwrap_err(), Error::UnalignedOffset);
}

#[test]
fn parse_rejects_wrong_length() {
    let short = [0u8; 15];
    match Command::<MouseInfo>::try_from(&short) {
        Ok(_) => panic!("a short buffer must be rejected"),
        Err(e) => assert_eq!(e, Error::LengthMismatch),
    }
    let long = [0u8; 17];
    match Command::<MouseInfo>::try_from(&long) {
        Ok(_) => panic!("a long buffer must be rejected"),
        Err(e) => assert_eq!(e, Error::LengthMismatch),
    }
}

#[test]
fn parse_round_trips_bytes() {
    let mut raw = [0u8; 16];
    for (i, b) in raw.iter_mut().enumerate() {
        *b = i as u8;
    }
    let cmd = Command::<MouseInfo>::try_from(&raw).unwrap();
    assert_eq!(cmd.as_bytes(), &raw[..]);
    assert_eq!(cmd.status(), 0x1);
    assert_eq!(cmd.valid_data_len(), 0x4);
    assert_eq!(cmd.checksum(), 0xf);
}

#[test]
fn id_decoding_is_recoverable() {
    let mut raw = [0u8; 16];
    raw[0] = 0x8;
    let cmd = Command::<MouseInfo>::try_from(&raw).unwrap();
    assert_eq!(cmd.id().unwrap(), CommandId::GetEEPROM);
    raw[0] = 0xee;
    let cmd = Command::<MouseInfo>::try_from(&raw).unwrap();
    assert_eq!(cmd.id().unwrap_err(), Error::InvalidEnumValue);
}

#[test]
fn eeprom_address_decoding_is_recoverable() {
    let mut raw = [0u8; 16];
    raw[0x2] = 0x00;
    raw[0x3] = 0x0c;
    let cmd = Command::<MouseInfo>::try_from(&raw).unwrap();
    assert_eq!(cmd.eeprom_address().unwrap(), EEPROMAddress::DpiPair1);
    raw[0x3] = 0x0d;
    let cmd = Command::<MouseInfo>::try_from(&raw).unwrap();
    assert_eq!(cmd.eeprom_address().unwrap_err(), Error::InvalidEnumValue);
}

#[test]
fn raw_mut_gives_unchecked_access() {
    let mut cmd = Command::<MouseInfo>::default();
    cmd.raw_mut()[0x5] = 0x99;
    assert_eq!(cmd.as_bytes()[0x5], 0x99);
}

#[test]
fn set_checksum_writes_final_byte() {
    let mut cmd = Command::<MouseInfo>::default();
    cmd.raw_mut()[0x0] = 0x7;
    cmd.set_checksum();
    assert_eq!(cmd.checksum(), expected_checksum(0x8, cmd.as_bytes()));
}

#[test]
fn dpi_pair_query_shape_and_payload_windows() {
    // A GetEEPROM query for DpiPair1, base offset 5, total length 16.
    let query = Command::<DpiProfile>::query(Pair::Pair1);
    let bytes = query.as_bytes();
    assert_eq!(bytes.len(), 16);
    assert_eq!(bytes[0x0], 0x08); // GetEEPROM
    assert_eq!(bytes[0x2], 0x00);
    assert_eq!(bytes[0x3], 0x0c); // DpiPair1
    assert_eq!(bytes[0x4], 0x08); // eight valid data bytes
    assert_eq!(bytes[0xf], expected_checksum(0x8, bytes));

    // A same-shaped response carries two 4-byte DPI groups in payload
    // bytes 5..13.
    let mut raw = [0u8; 16];
    raw[0x0] = 0x08;
    raw[0x2] = 0x00;
    raw[0x3] = 0x0c;
    raw[0x4] = 0x08;
    raw[0x5..0x9].copy_from_slice(&[0x02, 0x02, 0x00, 0x51]); // 150 DPI
    raw[0x9..0xd].copy_from_slice(&[0x00, 0x00, 0x44, 0x11]); // 12850 DPI
    let resp = Command::<DpiProfile>::try_from(&raw).unwrap();
    let (first, second) = resp.dpis().unwrap();
    assert_eq!(first.dpi(), 150);
    assert_eq!(second.dpi(), 12850);
}

#[test]
fn dpi_pair_payload_rejects_short_valid_length() {
    let mut raw = [0u8; 16];
    raw[0x4] = 0x4;
    let resp = Command::<DpiProfile>::try_from(&raw).unwrap();
    assert_eq!(resp.dpis().unwrap_err(), Error::LengthMismatch);
}

#[test]
fn error_messages_are_distinct() {
    let errors = [
        Error::LengthMismatch,
        Error::ChecksumError,
        Error::OffsetBelowBase,
        Error::OffsetOutOfRange,
        Error::UnalignedOffset,
        Error::TransportError,
        Error::ProfileLimitReached,
        Error::InvalidEnumValue,
    ];
    for (i, a) in errors.iter().enumerate() {
        assert!(!a.message().is_empty());
        for b in errors.iter().skip(i + 1) {
            assert_ne!(a.message(), b.message());
        }
    }
}

#[test]
fn eeprom_address_field_round_trips() {
    let addresses = [
        EEPROMAddress::ReportRate,
        EEPROMAddress::SilentHeight,
        EEPROMAddress::DpiPair1,
        EEPROMAddress::DpiPair3,
        EEPROMAddress::DpiPair5,
        EEPROMAddress::DpiPair7,
        EEPROMAddress::DpiPair1Color,
        EEPROMAddress::DpiPair3Color,
        EEPROMAddress::DpiPair5Color,
        EEPROMAddress::DpiPair7Color,
        EEPROMAddress::DpiRgbLightingEffects,
        EEPROMAddress::StabilizationTime,
        EEPROMAddress::MoveCloseLights,
    ];
    let mut cmd = Command::<MouseInfo>::default();
    for &addr in &addresses {
        cmd.set_eeprom_address(addr);
        assert_eq!(cmd.eeprom_address().unwrap(), addr);
        assert_eq!(cmd.checksum(), expected_checksum(0x8, cmd.as_bytes()));
    }
}

#[test]
fn command_id_field_round_trips() {
    let ids = [
        CommandId::Zero,
        CommandId::DownLoadData,
        CommandId::DownLoadDriverStatus,
        CommandId::GetWirelessMouseOnline,
        CommandId::GetBatteryLevel,
        CommandId::SetWirelessDonglePair,
        CommandId::GetWirelessDonglePairResult,
        CommandId::SetEEPROM,
        CommandId::GetEEPROM,
        CommandId::RestoreFactory,
        CommandId::GetMouseCIDMID,
        CommandId::GetMouseVersion,
        CommandId::DongleExitPair,
        CommandId::SetFarDistanceMode,
        CommandId::GetFarDistanceMode,
    ];
    let mut cmd = Command::<MouseInfo>::default();
    for &id in &ids {
        cmd.set_id(id);
        assert_eq!(cmd.id().unwrap(), id);
    }
}

#[test]
fn data_byte_pair_is_payload_relative() {
    let mut cmd = Command::<MouseInfo>::default();
    cmd.set_data_byte_with_checksum(0x42, 0x2).unwrap();
    assert_eq!(cmd.as_bytes()[0x7], 0x42);
    assert_eq!(cmd.as_bytes()[0x8], 0x13);
    assert_eq!(
        cmd.set_data_byte_with_checksum(0x42, 0x3).unwrap_err(),
        Error::UnalignedOffset
    );
    assert_eq!(
        cmd.set_data_byte_with_checksum(0x42, 0x9).unwrap_err(),
        Error::OffsetOutOfRange
    );
    assert!(cmd.set_data_byte_with_checksum(0x42, 0x8).is_ok());
}
