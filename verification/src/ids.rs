//! Command identifiers and the logical EEPROM address space: stateless,
//! pure mappings between the enumerated names and their on-wire codes.

use vstd::prelude::*;

use crate::Error;

verus! {

/// Operation selector carried in byte 0 of every packet.
#[derive(Clone, Copy, Debug, PartialEq, Eq, Structural)]
pub enum CommandId {
    /// Not a valid operation; the state of a freshly zeroed buffer.
    Zero,
    DownLoadData,
    DownLoadDriverStatus,
    GetWirelessMouseOnline,
    GetBatteryLevel,
    SetWirelessDonglePair,
    GetWirelessDonglePairResult,
    SetEEPROM,
    GetEEPROM,
    RestoreFactory,
    GetMouseCIDMID,
    GetMouseVersion,
    DongleExitPair,
    SetFarDistanceMode,
    GetFarDistanceMode,
}

/// On-wire code of a command identifier.
pub open spec fn spec_command_id_code(id: CommandId) -> u8 {
    match id {
        CommandId::Zero => 0x0,
        CommandId::DownLoadData => 0x1,
        CommandId::DownLoadDriverStatus => 0x2,
        CommandId::GetWirelessMouseOnline => 0x3,
        CommandId::GetBatteryLevel => 0x4,
        CommandId::SetWirelessDonglePair => 0x5,
        CommandId::GetWirelessDonglePairResult => 0x6,
        CommandId::SetEEPROM => 0x7,
        CommandId::GetEEPROM => 0x8,
        CommandId::RestoreFactory => 0x9,
        CommandId::GetMouseCIDMID => 0xf,
        CommandId::GetMouseVersion => 0x11,
        CommandId::DongleExitPair => 0x12,
        CommandId::SetFarDistanceMode => 0x15,
        CommandId::GetFarDistanceMode => 0x16,
    }
}

/// Command identifier named by an on-wire code, if any.
pub open spec fn spec_command_id_from(v: u8) -> Option<CommandId> {
    match v {
        0x0 => Some(CommandId::Zero),
        0x1 => Some(CommandId::DownLoadData),
        0x2 => Some(CommandId::DownLoadDriverStatus),
        0x3 => Some(CommandId::GetWirelessMouseOnline),
        0x4 => Some(CommandId::GetBatteryLevel),
        0x5 => Some(CommandId::SetWirelessDonglePair),
        0x6 => Some(CommandId::GetWirelessDonglePairResult),
        0x7 => Some(CommandId::SetEEPROM),
        0x8 => Some(CommandId::GetEEPROM),
        0x9 => Some(CommandId::RestoreFactory),
        0xf => Some(CommandId::GetMouseCIDMID),
        0x11 => Some(CommandId::GetMouseVersion),
        0x12 => Some(CommandId::DongleExitPair),
        0x15 => Some(CommandId::SetFarDistanceMode),
        0x16 => Some(CommandId::GetFarDistanceMode),
        _ => None,
    }
}

pub fn command_id_code(id: CommandId) -> (r: u8)
    ensures
        r == spec_command_id_code(id),
{
    match id {
        CommandId::Zero => 0x0,
        CommandId::DownLoadData => 0x1,
        CommandId::DownLoadDriverStatus => 0x2,
        CommandId::GetWirelessMouseOnline => 0x3,
        CommandId::GetBatteryLevel => 0x4,
        CommandId::SetWirelessDonglePair => 0x5,
        CommandId::GetWirelessDonglePairResult => 0x6,
        CommandId::SetEEPROM => 0x7,
        CommandId::GetEEPROM => 0x8,
        CommandId::RestoreFactory => 0x9,
        CommandId::GetMouseCIDMID => 0xf,
        CommandId::GetMouseVersion => 0x11,
        CommandId::DongleExitPair => 0x12,
        CommandId::SetFarDistanceMode => 0x15,
        CommandId::GetFarDistanceMode => 0x16,
    }
}

/// Decode an on-wire command identifier; an unknown code is a recoverable
/// decoding error, never a process abort.
pub fn command_id_from(v: u8) -> (r: Result<CommandId, Error>)
    ensures
        match r {
            Ok(id) => spec_command_id_from(v) == Some(id) && spec_command_id_code(id) == v,
            Err(e) => e == Error::InvalidEnumValue && spec_command_id_from(v) is None,
        },
{
    match v {
        0x0 => Ok(CommandId::Zero),
        0x1 => Ok(CommandId::DownLoadData),
        0x2 => Ok(CommandId::DownLoadDriverStatus),
        0x3 => Ok(CommandId::GetWirelessMouseOnline),
        0x4 => Ok(CommandId::GetBatteryLevel),
        0x5 => Ok(CommandId::SetWirelessDonglePair),
        0x6 => Ok(CommandId::GetWirelessDonglePairResult),
        0x7 => Ok(CommandId::SetEEPROM),
        0x8 => Ok(CommandId::GetEEPROM),
        0x9 => Ok(CommandId::RestoreFactory),
        0xf => Ok(CommandId::GetMouseCIDMID),
        0x11 => Ok(CommandId::GetMouseVersion),
        0x12 => Ok(CommandId::DongleExitPair),
        0x15 => Ok(CommandId::SetFarDistanceMode),
        0x16 => Ok(CommandId::GetFarDistanceMode),
        _ => Err(Error::InvalidEnumValue),
    }
}

/// Logical addresses of the persistent device settings reached through
/// Get/SetEEPROM operations.
#[derive(Clone, Copy, Debug, PartialEq, Eq, Structural)]
pub enum EEPROMAddress {
    ReportRate,
    SilentHeight,
    DpiPair1,
    DpiPair3,
    DpiPair5,
    DpiPair7,
    DpiPair1Color,
    DpiPair3Color,
    DpiPair5Color,
    DpiPair7Color,
    DpiRgbLightingEffects,
    StabilizationTime,
    MoveCloseLights,
}

/// On-wire 16-bit code of a logical EEPROM address.
pub open spec fn spec_eeprom_address_code(a: EEPROMAddress) -> u16 {
    match a {
        EEPROMAddress::ReportRate => 0x0,
        EEPROMAddress::SilentHeight => 0xa,
        EEPROMAddress::DpiPair1 => 0xc,
        EEPROMAddress::DpiPair3 => 0x14,
        EEPROMAddress::DpiPair5 => 0x1c,
        EEPROMAddress::DpiPair7 => 0x24,
        EEPROMAddress::DpiPair1Color => 0x2c,
        EEPROMAddress::DpiPair3Color => 0x34,
        EEPROMAddress::DpiPair5Color => 0x3c,
        EEPROMAddress::DpiPair7Color => 0x44,
        EEPROMAddress::DpiRgbLightingEffects => 0x4c,
        EEPROMAddress::StabilizationTime => 0xa9,
        EEPROMAddress::MoveCloseLights => 0xb3,
    }
}

/// Logical EEPROM address named by an on-wire code, if any.
pub open spec fn spec_eeprom_address_from(v: u16) -> Option<EEPROMAddress> {
    match v {
        0x0 => Some(EEPROMAddress::ReportRate),
        0xa => Some(EEPROMAddress::SilentHeight),
        0xc => Some(EEPROMAddress::DpiPair1),
        0x14 => Some(EEPROMAddress::DpiPair3),
        0x1c => Some(EEPROMAddress::DpiPair5),
        0x24 => Some(EEPROMAddress::DpiPair7),
        0x2c => Some(EEPROMAddress::DpiPair1Color),
        0x34 => Some(EEPROMAddress::DpiPair3Color),
        0x3c => Some(EEPROMAddress::DpiPair5Color),
        0x44 => Some(EEPROMAddress::DpiPair7Color),
        0x4c => Some(EEPROMAddress::DpiRgbLightingEffects),
        0xa9 => Some(EEPROMAddress::StabilizationTime),
        0xb3 => Some(EEPROMAddress::MoveCloseLights),
        _ => None,
    }
}

pub fn eeprom_address_code(a: EEPROMAddress) -> (r: u16)
    ensures
        r == spec_eeprom_address_code(a),
{
    match a {
        EEPROMAddress::ReportRate => 0x0,
        EEPROMAddress::SilentHeight => 0xa,
        EEPROMAddress::DpiPair1 => 0xc,
        EEPROMAddress::DpiPair3 => 0x14,
        EEPROMAddress::DpiPair5 => 0x1c,
        EEPROMAddress::DpiPair7 => 0x24,
        EEPROMAddress::DpiPair1Color => 0x2c,
        EEPROMAddress::DpiPair3Color => 0x34,
        EEPROMAddress::DpiPair5Color => 0x3c,
        EEPROMAddress::DpiPair7Color => 0x44,
        EEPROMAddress::DpiRgbLightingEffects => 0x4c,
        EEPROMAddress::StabilizationTime => 0xa9,
        EEPROMAddress::MoveCloseLights => 0xb3,
    }
}

/// Decode an on-wire EEPROM address; an unknown code is a recoverable
/// decoding error.
pub fn eeprom_address_from(v: u16) -> (r: Result<EEPROMAddress, Error>)
    ensures
        match r {
            Ok(a) => spec_eeprom_address_from(v) == Some(a) && spec_eeprom_address_code(a) == v,
            Err(e) => e == Error::InvalidEnumValue && spec_eeprom_address_from(v) is None,
        },
{
    match v {
        0x0 => Ok(EEPROMAddress::ReportRate),
        0xa => Ok(EEPROMAddress::SilentHeight),
        0xc => Ok(EEPROMAddress::DpiPair1),
        0x14 => Ok(EEPROMAddress::DpiPair3),
        0x1c => Ok(EEPROMAddress::DpiPair5),
        0x24 => Ok(EEPROMAddress::DpiPair7),
        0x2c => Ok(EEPROMAddress::DpiPair1Color),
        0x34 => Ok(EEPROMAddress::DpiPair3Color),
        0x3c => Ok(EEPROMAddress::DpiPair5Color),
        0x44 => Ok(EEPROMAddress::DpiPair7Color),
        0x4c => Ok(EEPROMAddress::DpiRgbLightingEffects),
        0xa9 => Ok(EEPROMAddress::StabilizationTime),
        0xb3 => Ok(EEPROMAddress::MoveCloseLights),
        _ => Err(Error::InvalidEnumValue),
    }
}

} // verus!
