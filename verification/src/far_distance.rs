//! The ultra-long-range mode domain: one flag, carried by its own pair
//! of command identifiers rather than an EEPROM address.

use vstd::prelude::*;

use crate::command::{Command, CommandBuilder, CommandDescriptor};
use crate::ids::{spec_command_id_code, CommandId};
use crate::performance::spec_bool_byte;

verus! {

/// The far-distance (ultra long range) mode flag.
#[derive(Clone, Copy, Debug, PartialEq, Eq, Structural)]
pub struct FarDistanceMode(pub bool);

impl Default for FarDistanceMode {
    fn default() -> (r: Self)
        ensures
            r == FarDistanceMode(false),
    {
        FarDistanceMode(false)
    }
}

impl FarDistanceMode {
    pub fn far_distance_mode(&self) -> (r: bool)
        ensures
            r == self.0,
    {
        self.0
    }

    /// A builder for a Set command carrying the current flag.
    pub fn builder(&self) -> (b: CommandBuilder<FarDistanceMode>)
        ensures
            b.command.wf(),
            b.command.checksum_ok(),
            b.command@[0x0] == spec_command_id_code(CommandId::SetFarDistanceMode),
            b.command@[0x5] == spec_bool_byte(self.0),
            forall|i: int| 0x1 <= i < 0xf && i != 0x5 ==> b.command@[i] == 0,
    {
        Command::<FarDistanceMode>::builder().far_distance_mode(self.0)
    }
}

impl CommandDescriptor for FarDistanceMode {
    open spec fn spec_base_offset() -> usize {
        0x5
    }

    open spec fn spec_report_id() -> u8 {
        0x8
    }

    open spec fn spec_cmd_len() -> usize {
        0x10
    }

    proof fn layout_properties() {
    }

    fn base_offset() -> usize {
        0x5
    }

    fn report_id() -> u8 {
        0x8
    }

    fn cmd_len() -> usize {
        0x10
    }
}

impl Command<FarDistanceMode> {
    /// A builder around a SetFarDistanceMode command.
    pub fn builder() -> (b: CommandBuilder<FarDistanceMode>)
        ensures
            b.command.wf(),
            b.command.checksum_ok(),
            b.command@[0x0] == spec_command_id_code(CommandId::SetFarDistanceMode),
            forall|i: int| 0x1 <= i < 0xf ==> b.command@[i] == 0,
    {
        let mut command = Command::<FarDistanceMode>::default();
        command.set_id(CommandId::SetFarDistanceMode);
        CommandBuilder::new(command)
    }

    /// A GetFarDistanceMode query.
    pub fn query() -> (c: Self)
        ensures
            c.wf(),
            c.checksum_ok(),
            c@[0x0] == spec_command_id_code(CommandId::GetFarDistanceMode),
            forall|i: int| 0x1 <= i < 0xf ==> c@[i] == 0,
    {
        let mut command = Command::<FarDistanceMode>::default();
        command.set_id(CommandId::GetFarDistanceMode);
        command
    }

    /// Decode a response into the flag: set exactly when the first data
    /// byte is one.
    pub fn config(self) -> (r: FarDistanceMode)
        requires
            self.wf(),
        ensures
            r == FarDistanceMode(self@[0x5] == 1u8),
    {
        FarDistanceMode(self.data_byte(0x0) == 0x1)
    }

    /// Write the flag as a single data byte (no complement pair) and
    /// recompute the checksum.
    pub fn set_far_distance_mode(&mut self, mode: bool)
        requires
            old(self).wf(),
        ensures
            final(self).wf(),
            final(self).checksum_ok(),
            final(self)@[0x5] == spec_bool_byte(mode),
            forall|i: int| 0 <= i < 0xf && i != 0x5 ==> final(self)@[i] == old(self)@[i],
    {
        let byte: u8 = if mode {
            1
        } else {
            0
        };
        let r = self.set_data_byte(byte, 0x0);
        proof {
            assert(r is Ok);
        }
    }
}

impl CommandBuilder<FarDistanceMode> {
    /// Chain the far-distance flag into the command being built.
    pub fn far_distance_mode(self, mode: bool) -> (r: Self)
        requires
            self.command.wf(),
        ensures
            r.command.wf(),
            r.command.checksum_ok(),
            r.command@[0x5] == spec_bool_byte(mode),
            forall|i: int| 0 <= i < 0xf && i != 0x5 ==> r.command@[i] == self.command@[i],
    {
        let mut builder = self;
        builder.command.set_far_distance_mode(mode);
        builder
    }
}

} // verus!
