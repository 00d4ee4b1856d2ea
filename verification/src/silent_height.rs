//! The silent height domain: the lift-off cutoff distance, one byte
//! pair at its EEPROM address.

use vstd::prelude::*;

use crate::command::{header_is, Command, CommandBuilder, CommandDescriptor};
use crate::checksum::pair_complement;
use crate::ids::{spec_eeprom_address_code, CommandId, EEPROMAddress};

verus! {

/// The lift-off cutoff heights the firmware understands; any other
/// reported byte reads as off.
#[derive(Clone, Copy, Debug, PartialEq, Eq, Structural)]
pub enum SilentHeightMode {
    Off,
    OneMm,
    TwoMm,
}

pub open spec fn spec_silent_height_code(m: SilentHeightMode) -> u8 {
    match m {
        SilentHeightMode::Off => 0x0,
        SilentHeightMode::OneMm => 0x1,
        SilentHeightMode::TwoMm => 0x2,
    }
}

/// Total decoding: an unknown byte reads as `Off`, as the firmware's
/// own driver does.
pub open spec fn spec_silent_height_from(v: u8) -> SilentHeightMode {
    match v {
        0x0 => SilentHeightMode::Off,
        0x1 => SilentHeightMode::OneMm,
        0x2 => SilentHeightMode::TwoMm,
        _ => SilentHeightMode::Off,
    }
}

impl Default for SilentHeightMode {
    fn default() -> (r: Self)
        ensures
            r == SilentHeightMode::Off,
    {
        SilentHeightMode::Off
    }
}

impl SilentHeightMode {
    pub fn code(&self) -> (r: u8)
        ensures
            r == spec_silent_height_code(*self),
    {
        match self {
            SilentHeightMode::Off => 0x0,
            SilentHeightMode::OneMm => 0x1,
            SilentHeightMode::TwoMm => 0x2,
        }
    }

    pub fn from_byte(value: u8) -> (r: SilentHeightMode)
        ensures
            r == spec_silent_height_from(value),
    {
        match value {
            0x1 => SilentHeightMode::OneMm,
            0x2 => SilentHeightMode::TwoMm,
            _ => SilentHeightMode::Off,
        }
    }
}

/// The silent height domain.
#[derive(Clone, Copy, Debug, PartialEq, Eq, Structural)]
pub struct SilentHeight {
    pub mode: SilentHeightMode,
}

impl Default for SilentHeight {
    fn default() -> (r: Self)
        ensures
            r == (SilentHeight { mode: SilentHeightMode::Off }),
    {
        SilentHeight { mode: SilentHeightMode::Off }
    }
}

impl SilentHeight {
    pub fn silent_height(&self) -> (r: SilentHeightMode)
        ensures
            r == self.mode,
    {
        self.mode
    }

    /// A builder for a Set command carrying the current mode.
    pub fn builder(&self) -> (b: CommandBuilder<SilentHeight>)
        ensures
            b.command.wf(),
            b.command.checksum_ok(),
            header_is(
                b.command@,
                CommandId::SetEEPROM,
                spec_eeprom_address_code(EEPROMAddress::SilentHeight),
                0x2,
            ),
            b.command@[0x5] == spec_silent_height_code(self.mode),
            b.command@[0x6] == pair_complement(spec_silent_height_code(self.mode)),
            forall|i: int| 0x7 <= i < 0xf ==> b.command@[i] == 0,
    {
        Command::<SilentHeight>::builder().silent_height(self.mode)
    }
}

impl CommandDescriptor for SilentHeight {
    open spec fn spec_base_offset() -> usize {
        0x5
    }

    open spec fn spec_report_id() -> u8 {
        0x8
    }

    open spec fn spec_cmd_len() -> usize {
        0x10
    }

    proof fn layout_properties() {
    }

    fn base_offset() -> usize {
        0x5
    }

    fn report_id() -> u8 {
        0x8
    }

    fn cmd_len() -> usize {
        0x10
    }
}

impl Command<SilentHeight> {
    /// A GetEEPROM query for the silent height domain, two valid data
    /// bytes.
    pub fn query() -> (c: Self)
        ensures
            c.wf(),
            c.checksum_ok(),
            header_is(
                c@,
                CommandId::GetEEPROM,
                spec_eeprom_address_code(EEPROMAddress::SilentHeight),
                0x2,
            ),
            forall|i: int| 0x5 <= i < 0xf ==> c@[i] == 0,
    {
        let mut command = Command::<SilentHeight>::default();
        command.set_id(CommandId::GetEEPROM);
        command.set_eeprom_address(EEPROMAddress::SilentHeight);
        command.set_valid_data_len(0x2);
        command
    }

    /// A builder around a SetEEPROM command for the silent height
    /// domain.
    pub fn builder() -> (b: CommandBuilder<SilentHeight>)
        ensures
            b.command.wf(),
            b.command.checksum_ok(),
            header_is(
                b.command@,
                CommandId::SetEEPROM,
                spec_eeprom_address_code(EEPROMAddress::SilentHeight),
                0x2,
            ),
            forall|i: int| 0x5 <= i < 0xf ==> b.command@[i] == 0,
    {
        let mut command = Command::<SilentHeight>::default();
        command.set_id(CommandId::SetEEPROM);
        command.set_eeprom_address(EEPROMAddress::SilentHeight);
        command.set_valid_data_len(0x2);
        CommandBuilder::new(command)
    }

    /// Decode a response into the silent height domain.
    pub fn config(self) -> (r: SilentHeight)
        requires
            self.wf(),
        ensures
            r.mode == spec_silent_height_from(self@[0x5]),
    {
        SilentHeight { mode: SilentHeightMode::from_byte(self.data_byte(0x0)) }
    }

    /// Write the mode byte pair and recompute the checksum.
    pub fn set_silent_height(&mut self, mode: SilentHeightMode)
        requires
            old(self).wf(),
        ensures
            final(self).wf(),
            final(self).checksum_ok(),
            final(self)@[0x5] == spec_silent_height_code(mode),
            final(self)@[0x6] == pair_complement(spec_silent_height_code(mode)),
            forall|i: int| 0 <= i < 0xf && i != 0x5 && i != 0x6 ==> final(self)@[i] == old(self)@[i],
    {
        let r = self.set_data_byte_with_checksum(mode.code(), 0x0);
        proof {
            assert(r is Ok);
        }
    }
}

impl CommandBuilder<SilentHeight> {
    /// Chain the silent height mode into the command being built.
    pub fn silent_height(self, mode: SilentHeightMode) -> (r: Self)
        requires
            self.command.wf(),
        ensures
            r.command.wf(),
            r.command.checksum_ok(),
            r.command@[0x5] == spec_silent_height_code(mode),
            r.command@[0x6] == pair_complement(spec_silent_height_code(mode)),
            forall|i: int|
                0 <= i < 0xf && i != 0x5 && i != 0x6 ==> r.command@[i] == self.command@[i],
    {
        let mut builder = self;
        builder.command.set_silent_height(mode);
        builder
    }
}

} // verus!
