//! Mouse information domain: polling rate, stored profile count and the
//! active profile index, kept at the report-rate EEPROM address as three
//! byte pairs.

use vstd::prelude::*;

use crate::command::{header_is, Command, CommandBuilder, CommandDescriptor};
use crate::checksum::pair_complement;
use crate::ids::{spec_eeprom_address_code, CommandId, EEPROMAddress};
use crate::Error;

verus! {

/// The report rates the firmware understands, one bit each.
#[derive(Clone, Copy, Debug, PartialEq, Eq, Structural)]
pub enum PollingRate {
    Hz1000,
    Hz500,
    Hz250,
    Hz125,
    Hz2000,
    Hz4000,
    Hz8000,
}

/// On-wire code of a polling rate.
pub open spec fn spec_polling_rate_code(r: PollingRate) -> u8 {
    match r {
        PollingRate::Hz1000 => 0x1,
        PollingRate::Hz500 => 0x2,
        PollingRate::Hz250 => 0x4,
        PollingRate::Hz125 => 0x8,
        PollingRate::Hz2000 => 0x10,
        PollingRate::Hz4000 => 0x20,
        PollingRate::Hz8000 => 0x40,
    }
}

/// Polling rate named by an on-wire code, if any.
pub open spec fn spec_polling_rate_from(v: u8) -> Option<PollingRate> {
    match v {
        0x1 => Some(PollingRate::Hz1000),
        0x2 => Some(PollingRate::Hz500),
        0x4 => Some(PollingRate::Hz250),
        0x8 => Some(PollingRate::Hz125),
        0x10 => Some(PollingRate::Hz2000),
        0x20 => Some(PollingRate::Hz4000),
        0x40 => Some(PollingRate::Hz8000),
        _ => None,
    }
}

impl Default for PollingRate {
    fn default() -> (r: Self)
        ensures
            r == PollingRate::Hz1000,
    {
        PollingRate::Hz1000
    }
}

impl PollingRate {
    pub fn code(&self) -> (r: u8)
        ensures
            r == spec_polling_rate_code(*self),
    {
        match self {
            PollingRate::Hz1000 => 0x1,
            PollingRate::Hz500 => 0x2,
            PollingRate::Hz250 => 0x4,
            PollingRate::Hz125 => 0x8,
            PollingRate::Hz2000 => 0x10,
            PollingRate::Hz4000 => 0x20,
            PollingRate::Hz8000 => 0x40,
        }
    }

    /// Decode an on-wire polling rate; an unknown code is a recoverable
    /// error, never a process abort.
    pub fn try_from(value: u8) -> (r: Result<PollingRate, Error>)
        ensures
            match r {
                Ok(p) => spec_polling_rate_from(value) == Some(p) && spec_polling_rate_code(p)
                    == value,
                Err(e) => e == Error::InvalidEnumValue && spec_polling_rate_from(value) is None,
            },
    {
        match value {
            0x1 => Ok(PollingRate::Hz1000),
            0x2 => Ok(PollingRate::Hz500),
            0x4 => Ok(PollingRate::Hz250),
            0x8 => Ok(PollingRate::Hz125),
            0x10 => Ok(PollingRate::Hz2000),
            0x20 => Ok(PollingRate::Hz4000),
            0x40 => Ok(PollingRate::Hz8000),
            _ => Err(Error::InvalidEnumValue),
        }
    }
}

/// The decoded mouse information domain.
#[derive(Clone, Copy, Debug, PartialEq, Eq, Structural)]
pub struct MouseInfo {
    pub poll_rate: PollingRate,
    pub num_profile: u8,
    pub active_profile: u8,
}

impl Default for MouseInfo {
    fn default() -> (r: Self)
        ensures
            r == (MouseInfo { poll_rate: PollingRate::Hz1000, num_profile: 0, active_profile: 0 }),
    {
        MouseInfo { poll_rate: PollingRate::Hz1000, num_profile: 0, active_profile: 0 }
    }
}

/// `info` is exactly what the payload of `s` decodes to.
pub open spec fn spec_mouse_info_matches(info: MouseInfo, s: Seq<u8>) -> bool {
    &&& spec_polling_rate_from(s[0x5]) == Some(info.poll_rate)
    &&& info.num_profile == s[0x7]
    &&& info.active_profile == s[0x9]
}

/// What a mouse information response decodes to, if the polling rate
/// byte names a known rate.
pub open spec fn spec_mouse_info_config(s: Seq<u8>) -> Option<MouseInfo> {
    if spec_polling_rate_from(s[0x5]) is Some {
        Some(MouseInfo {
            poll_rate: spec_polling_rate_from(s[0x5])->Some_0,
            num_profile: s[0x7],
            active_profile: s[0x9],
        })
    } else {
        None
    }
}

impl MouseInfo {
    pub fn poll_rate(&self) -> (r: PollingRate)
        ensures
            r == self.poll_rate,
    {
        self.poll_rate
    }

    pub fn num_profile(&self) -> (r: u8)
        ensures
            r == self.num_profile,
    {
        self.num_profile
    }

    pub fn active_profile(&self) -> (r: u8)
        ensures
            r == self.active_profile,
    {
        self.active_profile
    }

    /// A builder for a Set command carrying the current values, ready
    /// for single-field overrides.
    pub fn builder(&self) -> (b: CommandBuilder<MouseInfo>)
        ensures
            b.command.wf(),
            b.command.checksum_ok(),
            header_is(
                b.command@,
                CommandId::SetEEPROM,
                spec_eeprom_address_code(EEPROMAddress::ReportRate),
                0x6,
            ),
            b.command@[0x5] == spec_polling_rate_code(self.poll_rate),
            b.command@[0x6] == pair_complement(spec_polling_rate_code(self.poll_rate)),
            b.command@[0x7] == self.num_profile,
            b.command@[0x8] == pair_complement(self.num_profile),
            b.command@[0x9] == self.active_profile,
            b.command@[0xa] == pair_complement(self.active_profile),
            forall|i: int| 0xb <= i < 0xf ==> b.command@[i] == 0,
    {
        Command::<MouseInfo>::builder().poll_rate(self.poll_rate).num_profile(
            self.num_profile,
        ).active_profile(self.active_profile)
    }
}

impl CommandDescriptor for MouseInfo {
    open spec fn spec_base_offset() -> usize {
        0x5
    }

    open spec fn spec_report_id() -> u8 {
        0x8
    }

    open spec fn spec_cmd_len() -> usize {
        0x10
    }

    proof fn layout_properties() {
    }

    fn base_offset() -> usize {
        0x5
    }

    fn report_id() -> u8 {
        0x8
    }

    fn cmd_len() -> usize {
        0x10
    }
}

impl Command<MouseInfo> {
    /// A GetEEPROM query for the mouse information domain, six valid
    /// data bytes.
    pub fn query() -> (c: Self)
        ensures
            c.wf(),
            c.checksum_ok(),
            header_is(
                c@,
                CommandId::GetEEPROM,
                spec_eeprom_address_code(EEPROMAddress::ReportRate),
                0x6,
            ),
            forall|i: int| 0x5 <= i < 0xf ==> c@[i] == 0,
    {
        let mut command = Command::<MouseInfo>::default();
        command.set_id(CommandId::GetEEPROM);
        command.set_eeprom_address(EEPROMAddress::ReportRate);
        command.set_valid_data_len(0x6);
        command
    }

    /// A builder around a SetEEPROM command for the mouse information
    /// domain.
    pub fn builder() -> (b: CommandBuilder<MouseInfo>)
        ensures
            b.command.wf(),
            b.command.checksum_ok(),
            header_is(
                b.command@,
                CommandId::SetEEPROM,
                spec_eeprom_address_code(EEPROMAddress::ReportRate),
                0x6,
            ),
            forall|i: int| 0x5 <= i < 0xf ==> b.command@[i] == 0,
    {
        let mut command = Command::<MouseInfo>::default();
        command.set_id(CommandId::SetEEPROM);
        command.set_eeprom_address(EEPROMAddress::ReportRate);
        command.set_valid_data_len(0x6);
        CommandBuilder::new(command)
    }

    /// The polling rate byte of the payload, decoded; an unknown code
    /// is a recoverable error.
    pub fn poll_rate(&self) -> (r: Result<PollingRate, Error>)
        requires
            self.wf(),
        ensures
            match r {
                Ok(p) => spec_polling_rate_from(self@[0x5]) == Some(p),
                Err(e) => e == Error::InvalidEnumValue && spec_polling_rate_from(
                    self@[0x5],
                ) is None,
            },
    {
        PollingRate::try_from(self.data_byte(0x0))
    }

    /// Write the polling rate byte pair and recompute the checksum.
    pub fn set_poll_rate(&mut self, rate: PollingRate)
        requires
            old(self).wf(),
        ensures
            final(self).wf(),
            final(self).checksum_ok(),
            final(self)@[0x5] == spec_polling_rate_code(rate),
            final(self)@[0x6] == pair_complement(spec_polling_rate_code(rate)),
            forall|i: int| 0 <= i < 0xf && i != 0x5 && i != 0x6 ==> final(self)@[i] == old(self)@[i],
    {
        let r = self.set_data_byte_with_checksum(rate.code(), 0x0);
        proof {
            assert(r is Ok);
        }
    }

    /// The stored profile count byte of the payload.
    pub fn num_profile(&self) -> (r: u8)
        requires
            self.wf(),
        ensures
            r == self@[0x7],
    {
        self.data_byte(0x2)
    }

    /// Write the profile count byte pair and recompute the checksum.
    pub fn set_num_profile(&mut self, count: u8)
        requires
            old(self).wf(),
        ensures
            final(self).wf(),
            final(self).checksum_ok(),
            final(self)@[0x7] == count,
            final(self)@[0x8] == pair_complement(count),
            forall|i: int| 0 <= i < 0xf && i != 0x7 && i != 0x8 ==> final(self)@[i] == old(self)@[i],
    {
        let r = self.set_data_byte_with_checksum(count, 0x2);
        proof {
            assert(r is Ok);
        }
    }

    /// The active profile index byte of the payload.
    pub fn active_profile(&self) -> (r: u8)
        requires
            self.wf(),
        ensures
            r == self@[0x9],
    {
        self.data_byte(0x4)
    }

    /// Write the active profile byte pair and recompute the checksum.
    pub fn set_active_profile(&mut self, index: u8)
        requires
            old(self).wf(),
        ensures
            final(self).wf(),
            final(self).checksum_ok(),
            final(self)@[0x9] == index,
            final(self)@[0xa] == pair_complement(index),
            forall|i: int| 0 <= i < 0xf && i != 0x9 && i != 0xa ==> final(self)@[i] == old(self)@[i],
    {
        let r = self.set_data_byte_with_checksum(index, 0x4);
        proof {
            assert(r is Ok);
        }
    }

    /// Decode a response into the mouse information domain; an unknown
    /// polling rate code is a recoverable error.
    pub fn config(self) -> (r: Result<MouseInfo, Error>)
        requires
            self.wf(),
        ensures
            r is Ok <==> spec_mouse_info_config(self@) is Some,
            r is Ok ==> r->Ok_0 == spec_mouse_info_config(self@)->Some_0,
            match r {
                Ok(info) => spec_mouse_info_matches(info, self@),
                Err(e) => e == Error::InvalidEnumValue && spec_polling_rate_from(
                    self@[0x5],
                ) is None,
            },
    {
        let poll_rate = match self.poll_rate() {
            Ok(p) => p,
            Err(e) => {
                return Err(e);
            },
        };
        Ok(MouseInfo {
            poll_rate,
            num_profile: self.num_profile(),
            active_profile: self.active_profile(),
        })
    }
}

impl CommandBuilder<MouseInfo> {
    /// Chain the polling rate into the command being built.
    pub fn poll_rate(self, rate: PollingRate) -> (r: Self)
        requires
            self.command.wf(),
        ensures
            r.command.wf(),
            r.command.checksum_ok(),
            r.command@[0x5] == spec_polling_rate_code(rate),
            r.command@[0x6] == pair_complement(spec_polling_rate_code(rate)),
            forall|i: int|
                0 <= i < 0xf && i != 0x5 && i != 0x6 ==> r.command@[i] == self.command@[i],
    {
        let mut builder = self;
        builder.command.set_poll_rate(rate);
        builder
    }

    /// Chain the profile count into the command being built.
    pub fn num_profile(self, count: u8) -> (r: Self)
        requires
            self.command.wf(),
        ensures
            r.command.wf(),
            r.command.checksum_ok(),
            r.command@[0x7] == count,
            r.command@[0x8] == pair_complement(count),
            forall|i: int|
                0 <= i < 0xf && i != 0x7 && i != 0x8 ==> r.command@[i] == self.command@[i],
    {
        let mut builder = self;
        builder.command.set_num_profile(count);
        builder
    }

    /// Chain the active profile index into the command being built.
    pub fn active_profile(self, index: u8) -> (r: Self)
        requires
            self.command.wf(),
        ensures
            r.command.wf(),
            r.command.checksum_ok(),
            r.command@[0x9] == index,
            r.command@[0xa] == pair_complement(index),
            forall|i: int|
                0 <= i < 0xf && i != 0x9 && i != 0xa ==> r.command@[i] == self.command@[i],
    {
        let mut builder = self;
        builder.command.set_active_profile(index);
        builder
    }
}

} // verus!
