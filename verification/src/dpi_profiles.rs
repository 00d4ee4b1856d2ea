//! The per-pair settings domain: each hardware pair stores two DPI
//! groups at one EEPROM address and two color groups at another, read
//! and written eight payload bytes at a time.

use vstd::prelude::*;

use crate::command::{header_is, Command, CommandBuilder, CommandDescriptor};
use crate::dpi::{group_at, payload_window, spec_color_decode, spec_color_encode, spec_dpi_decode,
    spec_dpi_encodable, spec_dpi_encode, spec_pair_color_address, spec_pair_dpi_address,
    spec_pair_of_address, spec_slot_offset, Color, Dpi, Pair, Slot};
use crate::ids::{spec_eeprom_address_code, spec_eeprom_address_from, CommandId};
use crate::Error;

verus! {

/// What a DPI pair response decodes to, if its address names a pair,
/// its payload is long enough, and both groups pass their checksums.
pub open spec fn spec_dpi_pair_config(s: Seq<u8>) -> Option<DpiPairSetting> {
    let code = (s[0x2] * 0x100 + s[0x3]) as u16;
    let addr_pair = if spec_eeprom_address_from(code) is Some {
        spec_pair_of_address(spec_eeprom_address_from(code)->Some_0)
    } else {
        None
    };
    let w1 = spec_dpi_decode(s.subrange(0x5, 0x9));
    let w2 = spec_dpi_decode(s.subrange(0x9, 0xd));
    if addr_pair is None || s[0x4] < 8 || w1 is None || w2 is None {
        None
    } else {
        Some(DpiPairSetting {
            pair: addr_pair->Some_0,
            dpi_first: Dpi(w1->Some_0),
            dpi_second: Dpi(w2->Some_0),
        })
    }
}

/// What a color pair response decodes to, under the same conditions.
pub open spec fn spec_color_pair_config(s: Seq<u8>) -> Option<ColorPairSetting> {
    let code = (s[0x2] * 0x100 + s[0x3]) as u16;
    let addr_pair = if spec_eeprom_address_from(code) is Some {
        spec_pair_of_address(spec_eeprom_address_from(code)->Some_0)
    } else {
        None
    };
    let w1 = spec_color_decode(s.subrange(0x5, 0x9));
    let w2 = spec_color_decode(s.subrange(0x9, 0xd));
    if addr_pair is None || s[0x4] < 8 || w1 is None || w2 is None {
        None
    } else {
        Some(ColorPairSetting {
            pair: addr_pair->Some_0,
            color_first: w1->Some_0,
            color_second: w2->Some_0,
        })
    }
}

/// The decoded DPI configuration of one hardware pair.
#[derive(Clone, Copy, Debug, PartialEq, Eq, Structural)]
pub struct DpiPairSetting {
    pub pair: Pair,
    pub dpi_first: Dpi,
    pub dpi_second: Dpi,
}

impl Default for DpiPairSetting {
    fn default() -> (r: Self)
        ensures
            r == (DpiPairSetting {
                pair: Pair::Pair1,
                dpi_first: Dpi(1600),
                dpi_second: Dpi(1600),
            }),
    {
        DpiPairSetting { pair: Pair::Pair1, dpi_first: Dpi(1600), dpi_second: Dpi(1600) }
    }
}

impl DpiPairSetting {
    /// The DPI stored in the given slot.
    pub fn dpi(&self, slot: Slot) -> (r: Dpi)
        ensures
            slot == Slot::First ==> r == self.dpi_first,
            slot == Slot::Second ==> r == self.dpi_second,
    {
        match slot {
            Slot::First => self.dpi_first,
            Slot::Second => self.dpi_second,
        }
    }

    /// A builder for a Set command carrying this pair's current values,
    /// ready for single-slot overrides.
    pub fn builder(&self) -> (b: CommandBuilder<DpiPairSetting>)
        requires
            spec_dpi_encodable(self.dpi_first.0),
            spec_dpi_encodable(self.dpi_second.0),
        ensures
            b.command.wf(),
            b.command.checksum_ok(),
            header_is(
                b.command@,
                CommandId::SetEEPROM,
                spec_eeprom_address_code(spec_pair_dpi_address(self.pair)),
                0x8,
            ),
            group_at(b.command@, 0x5, spec_dpi_encode(self.dpi_first.0)),
            group_at(b.command@, 0x9, spec_dpi_encode(self.dpi_second.0)),
    {
        Command::<DpiPairSetting>::builder(self.pair).dpi(self.dpi_first, Slot::First).dpi(
            self.dpi_second,
            Slot::Second,
        )
    }
}

impl CommandDescriptor for DpiPairSetting {
    open spec fn spec_base_offset() -> usize {
        0x5
    }

    open spec fn spec_report_id() -> u8 {
        0x8
    }

    open spec fn spec_cmd_len() -> usize {
        0x10
    }

    proof fn layout_properties() {
    }

    fn base_offset() -> usize {
        0x5
    }

    fn report_id() -> u8 {
        0x8
    }

    fn cmd_len() -> usize {
        0x10
    }
}

impl Command<DpiPairSetting> {
    /// A GetEEPROM query for the pair's DPI groups.
    pub fn query(pair: Pair) -> (c: Self)
        ensures
            c.wf(),
            c.checksum_ok(),
            header_is(
                c@,
                CommandId::GetEEPROM,
                spec_eeprom_address_code(spec_pair_dpi_address(pair)),
                0x8,
            ),
            forall|i: int| 0x5 <= i < 0xf ==> c@[i] == 0,
    {
        let mut instance = Command::<DpiPairSetting>::default();
        instance.set_id(CommandId::GetEEPROM);
        instance.set_eeprom_address(pair.dpi_eeprom_address());
        instance.set_valid_data_len(0x8);
        instance
    }

    /// A builder around a SetEEPROM command for the pair's DPI groups.
    pub fn builder(pair: Pair) -> (b: CommandBuilder<DpiPairSetting>)
        ensures
            b.command.wf(),
            b.command.checksum_ok(),
            header_is(
                b.command@,
                CommandId::SetEEPROM,
                spec_eeprom_address_code(spec_pair_dpi_address(pair)),
                0x8,
            ),
            forall|i: int| 0x5 <= i < 0xf ==> b.command@[i] == 0,
    {
        let mut command = Command::<DpiPairSetting>::default();
        command.set_id(CommandId::SetEEPROM);
        command.set_eeprom_address(pair.dpi_eeprom_address());
        command.set_valid_data_len(0x8);
        CommandBuilder::new(command)
    }

    /// Decode a response into the pair's configuration; a bad address,
    /// a short payload, or a corrupted group is a recoverable error.
    pub fn config(self) -> (r: Result<DpiPairSetting, Error>)
        requires
            self.wf(),
        ensures
            r is Ok <==> spec_dpi_pair_config(self@) is Some,
            r is Ok ==> r->Ok_0 == spec_dpi_pair_config(self@)->Some_0,
            ({
                let code = (self@[0x2] * 0x100 + self@[0x3]) as u16;
                let addr_pair = if spec_eeprom_address_from(code) is Some {
                    spec_pair_of_address(spec_eeprom_address_from(code)->Some_0)
                } else {
                    None
                };
                let w1 = spec_dpi_decode(self@.subrange(0x5, 0x9));
                let w2 = spec_dpi_decode(self@.subrange(0x9, 0xd));
                if addr_pair is None {
                    r == Err::<DpiPairSetting, Error>(Error::InvalidEnumValue)
                } else if self@[0x4] < 8 {
                    r == Err::<DpiPairSetting, Error>(Error::LengthMismatch)
                } else if w1 is None || w2 is None {
                    r == Err::<DpiPairSetting, Error>(Error::ChecksumError)
                } else {
                    r == Ok::<DpiPairSetting, Error>(DpiPairSetting {
                        pair: addr_pair->Some_0,
                        dpi_first: Dpi(w1->Some_0),
                        dpi_second: Dpi(w2->Some_0),
                    })
                }
            }),
    {
        let address = match self.eeprom_address() {
            Ok(a) => a,
            Err(e) => {
                return Err(e);
            },
        };
        let pair = match Pair::try_from(address) {
            Ok(p) => p,
            Err(e) => {
                return Err(e);
            },
        };
        let (first, second) = match self.dpis_inner() {
            Ok(pairs) => pairs,
            Err(e) => {
                return Err(e);
            },
        };
        Ok(DpiPairSetting { pair, dpi_first: first, dpi_second: second })
    }

    /// The two DPI groups of the payload, decoded.
    fn dpis_inner(&self) -> (r: Result<(Dpi, Dpi), Error>)
        requires
            self.wf(),
        ensures
            self@[0x4] < 8 ==> r == Err::<(Dpi, Dpi), Error>(Error::LengthMismatch),
            self@[0x4] >= 8 ==> match (
                spec_dpi_decode(self@.subrange(0x5, 0x9)),
                spec_dpi_decode(self@.subrange(0x9, 0xd)),
            ) {
                (Some(a), Some(b)) => r == Ok::<(Dpi, Dpi), Error>((Dpi(a), Dpi(b))),
                _ => r == Err::<(Dpi, Dpi), Error>(Error::ChecksumError),
            },
    {
        if self.valid_data_len() < 8 {
            return Err(Error::LengthMismatch);
        }
        let w = payload_window(self);
        let s = w.as_slice();
        let first = Dpi::try_from(&s[0..4]);
        let second = Dpi::try_from(&s[4..8]);
        proof {
            assert(s@.subrange(0, 4) =~= self@.subrange(0x5, 0x9));
            assert(s@.subrange(4, 8) =~= self@.subrange(0x9, 0xd));
        }
        match (first, second) {
            (Ok(a), Ok(b)) => Ok((a, b)),
            (Err(e), _) => Err(e),
            (_, Err(e)) => Err(e),
        }
    }

    /// Write the encoded DPI group into the given slot's payload window
    /// and recompute the packet checksum.
    pub fn set_dpi(&mut self, dpi: Dpi, slot: Slot)
        requires
            old(self).wf(),
            spec_dpi_encodable(dpi.0),
        ensures
            final(self).wf(),
            final(self).checksum_ok(),
            group_at(final(self)@, 0x5 + spec_slot_offset(slot), spec_dpi_encode(dpi.0)),
            forall|i: int|
                0 <= i < 0xf && !(0x5 + spec_slot_offset(slot) <= i < 0x9 + spec_slot_offset(
                    slot,
                )) ==> final(self)@[i] == old(self)@[i],
    {
        let bytes = dpi.to_bytes();
        let off = slot.offset();
        let r0 = self.set_data_byte(bytes[0], off);
        let r1 = self.set_data_byte(bytes[1], off + 1);
        let r2 = self.set_data_byte(bytes[2], off + 2);
        let r3 = self.set_data_byte(bytes[3], off + 3);
        proof {
            assert(r0 is Ok && r1 is Ok && r2 is Ok && r3 is Ok);
        }
    }
}

impl CommandBuilder<DpiPairSetting> {
    /// Chain the DPI of one slot into the command being built.
    pub fn dpi(self, dpi: Dpi, slot: Slot) -> (r: Self)
        requires
            self.command.wf(),
            spec_dpi_encodable(dpi.0),
        ensures
            r.command.wf(),
            r.command.checksum_ok(),
            group_at(r.command@, 0x5 + spec_slot_offset(slot), spec_dpi_encode(dpi.0)),
            forall|i: int|
                0 <= i < 0xf && !(0x5 + spec_slot_offset(slot) <= i < 0x9 + spec_slot_offset(
                    slot,
                )) ==> r.command@[i] == self.command@[i],
    {
        let mut builder = self;
        builder.command.set_dpi(dpi, slot);
        builder
    }
}

/// The decoded color configuration of one hardware pair.
#[derive(Clone, Copy, Debug, PartialEq, Eq, Structural)]
pub struct ColorPairSetting {
    pub pair: Pair,
    pub color_first: Color,
    pub color_second: Color,
}

impl Default for ColorPairSetting {
    fn default() -> (r: Self)
        ensures
            r == (ColorPairSetting {
                pair: Pair::Pair1,
                color_first: Color { red: 0xff, green: 0xff, blue: 0xff },
                color_second: Color { red: 0xff, green: 0xff, blue: 0xff },
            }),
    {
        ColorPairSetting {
            pair: Pair::Pair1,
            color_first: Color { red: 0xff, green: 0xff, blue: 0xff },
            color_second: Color { red: 0xff, green: 0xff, blue: 0xff },
        }
    }
}

impl ColorPairSetting {
    /// The color stored in the given slot.
    pub fn color(&self, slot: Slot) -> (r: Color)
        ensures
            slot == Slot::First ==> r == self.color_first,
            slot == Slot::Second ==> r == self.color_second,
    {
        match slot {
            Slot::First => self.color_first,
            Slot::Second => self.color_second,
        }
    }

    /// A builder for a Set command carrying this pair's current values.
    pub fn builder(&self) -> (b: CommandBuilder<ColorPairSetting>)
        ensures
            b.command.wf(),
            b.command.checksum_ok(),
            header_is(
                b.command@,
                CommandId::SetEEPROM,
                spec_eeprom_address_code(spec_pair_color_address(self.pair)),
                0x8,
            ),
            group_at(b.command@, 0x5, spec_color_encode(self.color_first)),
            group_at(b.command@, 0x9, spec_color_encode(self.color_second)),
    {
        Command::<ColorPairSetting>::builder(self.pair).color(self.color_first, Slot::First).color(
            self.color_second,
            Slot::Second,
        )
    }
}

impl CommandDescriptor for ColorPairSetting {
    open spec fn spec_base_offset() -> usize {
        0x5
    }

    open spec fn spec_report_id() -> u8 {
        0x8
    }

    open spec fn spec_cmd_len() -> usize {
        0x10
    }

    proof fn layout_properties() {
    }

    fn base_offset() -> usize {
        0x5
    }

    fn report_id() -> u8 {
        0x8
    }

    fn cmd_len() -> usize {
        0x10
    }
}

impl Command<ColorPairSetting> {
    /// A GetEEPROM query for the pair's color groups.
    pub fn query(pair: Pair) -> (c: Self)
        ensures
            c.wf(),
            c.checksum_ok(),
            header_is(
                c@,
                CommandId::GetEEPROM,
                spec_eeprom_address_code(spec_pair_color_address(pair)),
                0x8,
            ),
            forall|i: int| 0x5 <= i < 0xf ==> c@[i] == 0,
    {
        let mut instance = Command::<ColorPairSetting>::default();
        instance.set_id(CommandId::GetEEPROM);
        instance.set_eeprom_address(pair.color_eeprom_address());
        instance.set_valid_data_len(0x8);
        instance
    }

    /// A builder around a SetEEPROM command for the pair's color groups.
    pub fn builder(pair: Pair) -> (b: CommandBuilder<ColorPairSetting>)
        ensures
            b.command.wf(),
            b.command.checksum_ok(),
            header_is(
                b.command@,
                CommandId::SetEEPROM,
                spec_eeprom_address_code(spec_pair_color_address(pair)),
                0x8,
            ),
            forall|i: int| 0x5 <= i < 0xf ==> b.command@[i] == 0,
    {
        let mut command = Command::<ColorPairSetting>::default();
        command.set_id(CommandId::SetEEPROM);
        command.set_eeprom_address(pair.color_eeprom_address());
        command.set_valid_data_len(0x8);
        CommandBuilder::new(command)
    }

    /// Decode a response into the pair's color configuration.
    pub fn config(self) -> (r: Result<ColorPairSetting, Error>)
        requires
            self.wf(),
        ensures
            r is Ok <==> spec_color_pair_config(self@) is Some,
            r is Ok ==> r->Ok_0 == spec_color_pair_config(self@)->Some_0,
            ({
                let code = (self@[0x2] * 0x100 + self@[0x3]) as u16;
                let addr_pair = if spec_eeprom_address_from(code) is Some {
                    spec_pair_of_address(spec_eeprom_address_from(code)->Some_0)
                } else {
                    None
                };
                let w1 = spec_color_decode(self@.subrange(0x5, 0x9));
                let w2 = spec_color_decode(self@.subrange(0x9, 0xd));
                if addr_pair is None {
                    r == Err::<ColorPairSetting, Error>(Error::InvalidEnumValue)
                } else if self@[0x4] < 8 {
                    r == Err::<ColorPairSetting, Error>(Error::LengthMismatch)
                } else if w1 is None || w2 is None {
                    r == Err::<ColorPairSetting, Error>(Error::ChecksumError)
                } else {
                    r == Ok::<ColorPairSetting, Error>(ColorPairSetting {
                        pair: addr_pair->Some_0,
                        color_first: w1->Some_0,
                        color_second: w2->Some_0,
                    })
                }
            }),
    {
        let address = match self.eeprom_address() {
            Ok(a) => a,
            Err(e) => {
                return Err(e);
            },
        };
        let pair = match Pair::try_from(address) {
            Ok(p) => p,
            Err(e) => {
                return Err(e);
            },
        };
        let (first, second) = match self.colors_inner() {
            Ok(pairs) => pairs,
            Err(e) => {
                return Err(e);
            },
        };
        Ok(ColorPairSetting { pair, color_first: first, color_second: second })
    }

    /// The two color groups of the payload, decoded.
    fn colors_inner(&self) -> (r: Result<(Color, Color), Error>)
        requires
            self.wf(),
        ensures
            self@[0x4] < 8 ==> r == Err::<(Color, Color), Error>(Error::LengthMismatch),
            self@[0x4] >= 8 ==> match (
                spec_color_decode(self@.subrange(0x5, 0x9)),
                spec_color_decode(self@.subrange(0x9, 0xd)),
            ) {
                (Some(a), Some(b)) => r == Ok::<(Color, Color), Error>((a, b)),
                _ => r == Err::<(Color, Color), Error>(Error::ChecksumError),
            },
    {
        if self.valid_data_len() < 8 {
            return Err(Error::LengthMismatch);
        }
        let w = payload_window(self);
        let s = w.as_slice();
        let first = Color::try_from(&s[0..4]);
        let second = Color::try_from(&s[4..8]);
        proof {
            assert(s@.subrange(0, 4) =~= self@.subrange(0x5, 0x9));
            assert(s@.subrange(4, 8) =~= self@.subrange(0x9, 0xd));
        }
        match (first, second) {
            (Ok(a), Ok(b)) => Ok((a, b)),
            (Err(e), _) => Err(e),
            (_, Err(e)) => Err(e),
        }
    }

    /// Write the encoded color group into the given slot's payload
    /// window and recompute the packet checksum.
    pub fn set_color(&mut self, color: Color, slot: Slot)
        requires
            old(self).wf(),
        ensures
            final(self).wf(),
            final(self).checksum_ok(),
            group_at(final(self)@, 0x5 + spec_slot_offset(slot), spec_color_encode(color)),
            forall|i: int|
                0 <= i < 0xf && !(0x5 + spec_slot_offset(slot) <= i < 0x9 + spec_slot_offset(
                    slot,
                )) ==> final(self)@[i] == old(self)@[i],
    {
        let bytes = color.to_bytes();
        let off = slot.offset();
        let r0 = self.set_data_byte(bytes[0], off);
        let r1 = self.set_data_byte(bytes[1], off + 1);
        let r2 = self.set_data_byte(bytes[2], off + 2);
        let r3 = self.set_data_byte(bytes[3], off + 3);
        proof {
            assert(r0 is Ok && r1 is Ok && r2 is Ok && r3 is Ok);
        }
    }
}

impl CommandBuilder<ColorPairSetting> {
    /// Chain the color of one slot into the command being built.
    pub fn color(self, color: Color, slot: Slot) -> (r: Self)
        requires
            self.command.wf(),
        ensures
            r.command.wf(),
            r.command.checksum_ok(),
            group_at(r.command@, 0x5 + spec_slot_offset(slot), spec_color_encode(color)),
            forall|i: int|
                0 <= i < 0xf && !(0x5 + spec_slot_offset(slot) <= i < 0x9 + spec_slot_offset(
                    slot,
                )) ==> r.command@[i] == self.command@[i],
    {
        let mut builder = self;
        builder.command.set_color(color, slot);
        builder
    }
}

} // verus!
