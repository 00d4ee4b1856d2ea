//! The generic packet codec: a fixed-length command buffer with typed
//! field accessors and the packet-level checksum recomputed on every
//! mutation.
//!
//! Layout of the 16-byte buffer:
//!
//! | Command ID | Status | EEPROM Address | Valid Data Length | Data     | Checksum |
//! |------------|--------|----------------|-------------------|----------|----------|
//! |   1 byte   | 1 byte | 2 bytes (BE)   |      1 byte       | 10 bytes |  1 byte  |

use core::marker::PhantomData;
use vstd::prelude::*;

use crate::checksum::{checksum_of, complement_byte, lemma_sum_bytes_take_step, pair_complement,
    sum_bytes};
use crate::ids::{command_id_code, command_id_from, eeprom_address_code, eeprom_address_from,
    spec_command_id_code, spec_command_id_from, spec_eeprom_address_code,
    spec_eeprom_address_from, CommandId, EEPROMAddress};
use crate::Error;

verus! {

/// Per-command-kind constants: the offset of the first data byte, the HID
/// report identifier folded into the checksum, and the fixed buffer length.
pub trait CommandDescriptor {
    spec fn spec_base_offset() -> usize;

    spec fn spec_report_id() -> u8;

    spec fn spec_cmd_len() -> usize;

    /// Every command kind of this protocol family shares the same shape:
    /// a 16-byte buffer whose data payload starts at byte 5.
    proof fn layout_properties()
        ensures
            Self::spec_cmd_len() == 0x10,
            Self::spec_base_offset() == 0x5,
    ;

    fn base_offset() -> (r: usize)
        ensures
            r == Self::spec_base_offset(),
    ;

    fn report_id() -> (r: u8)
        ensures
            r == Self::spec_report_id(),
    ;

    fn cmd_len() -> (r: usize)
        ensures
            r == Self::spec_cmd_len(),
    ;
}

/// A generic command buffer, parameterized by a descriptor type that fixes
/// its layout constants.
pub struct Command<T: CommandDescriptor> {
    raw: Vec<u8>,
    marker: PhantomData<T>,
}

/// The five header bytes of a freshly built command: the id, a zero
/// status, the big-endian EEPROM address, and the valid data length.
pub open spec fn header_is(s: Seq<u8>, id: CommandId, addr_code: u16, dlen: u8) -> bool {
    &&& s.len() == 0x10
    &&& s[0x0] == spec_command_id_code(id)
    &&& s[0x1] == 0u8
    &&& s[0x2] == addr_code / 0x100
    &&& s[0x3] == addr_code % 0x100
    &&& s[0x4] == dlen
}

impl<T: CommandDescriptor> View for Command<T> {
    type V = Seq<u8>;

    closed spec fn view(&self) -> Seq<u8> {
        self.raw@
    }
}

impl<T: CommandDescriptor> Clone for Command<T> {
    fn clone(&self) -> (r: Self)
        ensures
            r@ == self@,
    {
        Command { raw: vstd::slice::slice_to_vec(self.raw.as_slice()), marker: PhantomData }
    }
}

impl<T: CommandDescriptor> Default for Command<T> {
    /// A zeroed buffer of the descriptor's fixed length; the caller must
    /// set the command id before the buffer is considered valid.
    fn default() -> (r: Self)
        ensures
            r.wf(),
            r@ =~= Seq::new(T::spec_cmd_len() as nat, |i: int| 0u8),
    {
        proof {
            T::layout_properties();
        }
        let n = T::cmd_len();
        let mut raw: Vec<u8> = Vec::new();
        let mut i: usize = 0;
        while i < n
            invariant
                i <= n,
                raw@ =~= Seq::new(i as nat, |j: int| 0u8),
            decreases n - i,
        {
            raw.push(0u8);
            i = i + 1;
            proof {
                assert(raw@ =~= Seq::new(i as nat, |j: int| 0u8));
            }
        }
        Command { raw, marker: PhantomData }
    }
}

impl<T: CommandDescriptor> Command<T> {
    /// The buffer has exactly the descriptor's fixed length.
    pub open spec fn wf(&self) -> bool {
        self@.len() == T::spec_cmd_len() && T::spec_cmd_len() == 0x10
    }

    /// The checksum byte is the vendor checksum of the other fifteen
    /// bytes and the descriptor's report id.
    pub open spec fn checksum_ok(&self) -> bool {
        self@[0xf] == checksum_of(T::spec_report_id(), self@.take(0xf))
    }

    /// Parse a response buffer; fails if and only if the length does not
    /// match the descriptor's fixed command length.
    pub fn try_from(bytes: &[u8]) -> (r: Result<Self, Error>)
        ensures
            match r {
                Ok(c) => bytes@.len() == T::spec_cmd_len() && c.wf() && c@ == bytes@,
                Err(e) => e == Error::LengthMismatch && bytes@.len() != T::spec_cmd_len(),
            },
    {
        proof {
            T::layout_properties();
        }
        if bytes.len() != T::cmd_len() {
            return Err(Error::LengthMismatch);
        }
        Ok(Command { raw: vstd::slice::slice_to_vec(bytes), marker: PhantomData })
    }

    /// Raw mutable access to the whole buffer, checksum byte included;
    /// writing through it does not recompute the checksum.
    pub fn raw_mut(&mut self) -> (r: &mut [u8])
        ensures
            r@ == old(self)@,
            final(self)@ == final(r)@,
    {
        self.raw.as_mut_slice()
    }

    /// Immutable view of the whole buffer.
    pub fn as_bytes(&self) -> (r: &[u8])
        ensures
            r@ == self@,
    {
        self.raw.as_slice()
    }

    /// Read one byte of the data payload, at an offset relative to the
    /// descriptor's base offset.
    pub fn data_byte(&self, offset: usize) -> (r: u8)
        requires
            self.wf(),
            T::spec_base_offset() + offset < T::spec_cmd_len(),
        ensures
            r == self@[T::spec_base_offset() + offset],
    {
        proof {
            T::layout_properties();
        }
        self.raw[T::base_offset() + offset]
    }

    /// Recompute the packet checksum from the report id and bytes 0..15
    /// and store it in the final byte.
    pub fn set_checksum(&mut self)
        requires
            old(self).wf(),
        ensures
            final(self).wf(),
            final(self)@.len() == old(self)@.len(),
            forall|i: int| 0 <= i < 0xf ==> final(self)@[i] == old(self)@[i],
            final(self).checksum_ok(),
    {
        proof {
            T::layout_properties();
        }
        let mut sum: u16 = 0;
        let mut i: usize = 0;
        while i < 0xf
            invariant
                self.wf(),
                self@ == old(self)@,
                i <= 0xf,
                sum == sum_bytes(self@.take(i as int)),
                sum <= 255 * i,
            decreases 0xf - i,
        {
            proof {
                lemma_sum_bytes_take_step(self@, i as int);
            }
            sum = sum + (self.raw[i] as u16);
            i = i + 1;
        }
        let total: u16 = (T::report_id() as u16) + sum;
        let ck: u8 = (((0x55u16 + 0x100u16) - (total % 0x100u16)) % 0x100u16) as u8;
        proof {
            assert(self@.take(0xf) =~= old(self)@.take(0xf));
        }
        self.raw.set(0xf, ck);
        proof {
            assert(final(self)@.take(0xf) =~= old(self)@.take(0xf));
        }
    }

    /// Write `value` at `offset` and its complement `0x55 - value` at
    /// `offset + 1`, then recompute the packet checksum. Rejects offsets
    /// below the base offset, too close to the end of the buffer, or not
    /// aligned to a byte-pair boundary, in that order of checks.
    pub fn set_byte_pair(&mut self, value: u8, offset: usize) -> (r: Result<(), Error>)
        requires
            old(self).wf(),
        ensures
            final(self).wf(),
            offset < T::spec_base_offset() ==> r == Err::<(), Error>(Error::OffsetBelowBase)
                && final(self)@ == old(self)@,
            T::spec_base_offset() <= offset && offset >= T::spec_cmd_len() - 2 ==> r == Err::<
                (),
                Error,
            >(Error::OffsetOutOfRange) && final(self)@ == old(self)@,
            T::spec_base_offset() <= offset && offset < T::spec_cmd_len() - 2
                && (offset - T::spec_base_offset()) % 2 != 0 ==> r == Err::<(), Error>(
                Error::UnalignedOffset,
            ) && final(self)@ == old(self)@,
            T::spec_base_offset() <= offset && offset < T::spec_cmd_len() - 2
                && (offset - T::spec_base_offset()) % 2 == 0 ==> {
                &&& r == Ok::<(), Error>(())
                &&& final(self)@[offset as int] == value
                &&& final(self)@[offset + 1] == pair_complement(value)
                &&& forall|i: int|
                    0 <= i < 0xf && i != offset && i != offset + 1 ==> final(self)@[i] == old(
                        self,
                    )@[i]
                &&& final(self).checksum_ok()
            },
    {
        proof {
            T::layout_properties();
        }
        if offset < T::base_offset() {
            return Err(Error::OffsetBelowBase);
        }
        if offset >= self.raw.len() - 2 {
            return Err(Error::OffsetOutOfRange);
        }
        if (offset - T::base_offset()) % 2 != 0 {
            return Err(Error::UnalignedOffset);
        }
        self.raw.set(offset, value);
        self.raw.set(offset + 1, complement_byte(value));
        self.set_checksum();
        Ok(())
    }

    /// The command id byte, decoded; an unknown code is a recoverable
    /// error.
    pub fn id(&self) -> (r: Result<CommandId, Error>)
        requires
            self.wf(),
        ensures
            match r {
                Ok(id) => spec_command_id_from(self@[0x0]) == Some(id) && spec_command_id_code(id)
                    == self@[0x0],
                Err(e) => e == Error::InvalidEnumValue && spec_command_id_from(self@[0x0]) is None,
            },
    {
        proof {
            T::layout_properties();
        }
        command_id_from(self.raw[0x0])
    }

    /// Set the command id byte and recompute the checksum.
    pub fn set_id(&mut self, id: CommandId)
        requires
            old(self).wf(),
        ensures
            final(self).wf(),
            final(self)@[0x0] == spec_command_id_code(id),
            forall|i: int| 1 <= i < 0xf ==> final(self)@[i] == old(self)@[i],
            final(self).checksum_ok(),
    {
        proof {
            T::layout_properties();
        }
        let code = command_id_code(id);
        self.raw.set(0x0, code);
        self.set_checksum();
    }

    /// The device-reported status byte.
    pub fn status(&self) -> (r: u8)
        requires
            self.wf(),
        ensures
            r == self@[0x1],
    {
        proof {
            T::layout_properties();
        }
        self.raw[0x1]
    }

    /// Set the status byte and recompute the checksum.
    pub fn set_status(&mut self, status: u8)
        requires
            old(self).wf(),
        ensures
            final(self).wf(),
            final(self)@[0x1] == status,
            forall|i: int| 0 <= i < 0xf && i != 1 ==> final(self)@[i] == old(self)@[i],
            final(self).checksum_ok(),
    {
        proof {
            T::layout_properties();
        }
        self.raw.set(0x1, status);
        self.set_checksum();
    }

    /// The big-endian EEPROM address field, decoded; an unknown code is a
    /// recoverable error.
    pub fn eeprom_address(&self) -> (r: Result<EEPROMAddress, Error>)
        requires
            self.wf(),
        ensures
            ({
                let code = (self@[0x2] * 0x100 + self@[0x3]) as u16;
                match r {
                    Ok(a) => spec_eeprom_address_from(code) == Some(a) && spec_eeprom_address_code(
                        a,
                    ) == code,
                    Err(e) => e == Error::InvalidEnumValue && spec_eeprom_address_from(
                        code,
                    ) is None,
                }
            }),
    {
        proof {
            T::layout_properties();
        }
        let code: u16 = (self.raw[0x2] as u16) * 0x100 + (self.raw[0x3] as u16);
        eeprom_address_from(code)
    }

    /// Set the big-endian EEPROM address field and recompute the
    /// checksum.
    pub fn set_eeprom_address(&mut self, address: EEPROMAddress)
        requires
            old(self).wf(),
        ensures
            final(self).wf(),
            final(self)@[0x2] == spec_eeprom_address_code(address) / 0x100,
            final(self)@[0x3] == spec_eeprom_address_code(address) % 0x100,
            forall|i: int| 0 <= i < 0xf && i != 2 && i != 3 ==> final(self)@[i] == old(self)@[i],
            final(self).checksum_ok(),
    {
        proof {
            T::layout_properties();
        }
        let code = eeprom_address_code(address);
        self.raw.set(0x2, (code / 0x100) as u8);
        self.raw.set(0x3, (code % 0x100) as u8);
        self.set_checksum();
    }

    /// The number of meaningful bytes in the data payload.
    pub fn valid_data_len(&self) -> (r: u8)
        requires
            self.wf(),
        ensures
            r == self@[0x4],
    {
        proof {
            T::layout_properties();
        }
        self.raw[0x4]
    }

    /// Set the valid data length byte and recompute the checksum.
    pub fn set_valid_data_len(&mut self, len: u8)
        requires
            old(self).wf(),
        ensures
            final(self).wf(),
            final(self)@[0x4] == len,
            forall|i: int| 0 <= i < 0xf && i != 4 ==> final(self)@[i] == old(self)@[i],
            final(self).checksum_ok(),
    {
        proof {
            T::layout_properties();
        }
        self.raw.set(0x4, len);
        self.set_checksum();
    }

    /// The stored checksum byte.
    pub fn checksum(&self) -> (r: u8)
        requires
            self.wf(),
        ensures
            r == self@[0xf],
    {
        proof {
            T::layout_properties();
        }
        self.raw[0xf]
    }

    /// Write a single data-payload byte, at an offset relative to the
    /// base offset, and recompute the checksum. Rejects offsets that
    /// reach the checksum byte or beyond.
    pub fn set_data_byte(&mut self, value: u8, offset: usize) -> (r: Result<(), Error>)
        requires
            old(self).wf(),
        ensures
            final(self).wf(),
            T::spec_base_offset() + offset >= T::spec_cmd_len() - 1 ==> r == Err::<(), Error>(
                Error::OffsetOutOfRange,
            ) && final(self)@ == old(self)@,
            T::spec_base_offset() + offset < T::spec_cmd_len() - 1 ==> {
                &&& r == Ok::<(), Error>(())
                &&& final(self)@[T::spec_base_offset() + offset] == value
                &&& forall|i: int|
                    0 <= i < 0xf && i != T::spec_base_offset() + offset ==> final(self)@[i] == old(
                        self,
                    )@[i]
                &&& final(self).checksum_ok()
            },
    {
        proof {
            T::layout_properties();
        }
        if offset >= T::cmd_len() - 1 - T::base_offset() {
            return Err(Error::OffsetOutOfRange);
        }
        self.raw.set(T::base_offset() + offset, value);
        self.set_checksum();
        Ok(())
    }

    /// Write a data-payload byte pair, at an offset relative to the base
    /// offset, and recompute the checksum. Rejects out-of-range offsets
    /// and odd offsets.
    pub fn set_data_byte_with_checksum(&mut self, value: u8, offset: usize) -> (r: Result<
        (),
        Error,
    >)
        requires
            old(self).wf(),
        ensures
            final(self).wf(),
            T::spec_base_offset() + offset >= T::spec_cmd_len() - 2 ==> r == Err::<(), Error>(
                Error::OffsetOutOfRange,
            ) && final(self)@ == old(self)@,
            T::spec_base_offset() + offset < T::spec_cmd_len() - 2 && offset % 2 != 0 ==> r
                == Err::<(), Error>(Error::UnalignedOffset) && final(self)@ == old(self)@,
            T::spec_base_offset() + offset < T::spec_cmd_len() - 2 && offset % 2 == 0 ==> {
                &&& r == Ok::<(), Error>(())
                &&& final(self)@[T::spec_base_offset() + offset] == value
                &&& final(self)@[T::spec_base_offset() + offset + 1] == pair_complement(value)
                &&& forall|i: int|
                    0 <= i < 0xf && i != T::spec_base_offset() + offset && i
                        != T::spec_base_offset() + offset + 1 ==> final(self)@[i] == old(self)@[i]
                &&& final(self).checksum_ok()
            },
    {
        proof {
            T::layout_properties();
        }
        if offset >= T::cmd_len() {
            return Err(Error::OffsetOutOfRange);
        }
        self.set_byte_pair(value, T::base_offset() + offset)
    }
}

/// A mutable accumulation context wrapping a packet being prepared for a
/// Set-style command; each domain-specific setter chains on it and
/// `build` consumes it, yielding the finalized packet.
pub struct CommandBuilder<T: CommandDescriptor> {
    pub command: Command<T>,
}

impl<T: CommandDescriptor> CommandBuilder<T> {
    pub fn new(command: Command<T>) -> (r: Self)
        ensures
            r.command == command,
    {
        CommandBuilder { command }
    }

    pub fn build(self) -> (r: Command<T>)
        ensures
            r == self.command,
    {
        self.command
    }
}

} // verus!
