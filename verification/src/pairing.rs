//! Dongle pairing commands: start pairing with a CID/MID, poll the
//! pairing result, and leave pairing mode.

use vstd::prelude::*;

use crate::command::{Command, CommandBuilder, CommandDescriptor};
use crate::ids::{spec_command_id_code, CommandId};

verus! {

/// The command kind that puts the dongle into pairing mode.
pub struct StartPairing;

impl CommandDescriptor for StartPairing {
    open spec fn spec_base_offset() -> usize {
        0x5
    }

    open spec fn spec_report_id() -> u8 {
        0x8
    }

    open spec fn spec_cmd_len() -> usize {
        0x10
    }

    proof fn layout_properties() {
    }

    fn base_offset() -> usize {
        0x5
    }

    fn report_id() -> u8 {
        0x8
    }

    fn cmd_len() -> usize {
        0x10
    }
}

impl Command<StartPairing> {
    /// A builder around a SetWirelessDonglePair command.
    pub fn builder() -> (b: CommandBuilder<StartPairing>)
        ensures
            b.command.wf(),
            b.command.checksum_ok(),
            b.command@[0x0] == spec_command_id_code(CommandId::SetWirelessDonglePair),
            forall|i: int| 0x1 <= i < 0xf ==> b.command@[i] == 0,
    {
        let mut command = Command::<StartPairing>::default();
        command.set_id(CommandId::SetWirelessDonglePair);
        CommandBuilder::new(command)
    }

    /// Write the customer identifier as a single data byte.
    pub fn set_cid(&mut self, cid: u8)
        requires
            old(self).wf(),
        ensures
            final(self).wf(),
            final(self).checksum_ok(),
            final(self)@[0x5] == cid,
            forall|i: int| 0 <= i < 0xf && i != 0x5 ==> final(self)@[i] == old(self)@[i],
    {
        let r = self.set_data_byte(cid, 0x0);
        proof {
            assert(r is Ok);
        }
    }

    /// Write the model identifier as a single data byte.
    pub fn set_mid(&mut self, mid: u8)
        requires
            old(self).wf(),
        ensures
            final(self).wf(),
            final(self).checksum_ok(),
            final(self)@[0x6] == mid,
            forall|i: int| 0 <= i < 0xf && i != 0x6 ==> final(self)@[i] == old(self)@[i],
    {
        let r = self.set_data_byte(mid, 0x1);
        proof {
            assert(r is Ok);
        }
    }
}

impl CommandBuilder<StartPairing> {
    /// Chain the customer identifier into the command being built.
    pub fn cid(self, cid: u8) -> (r: Self)
        requires
            self.command.wf(),
        ensures
            r.command.wf(),
            r.command.checksum_ok(),
            r.command@[0x5] == cid,
            forall|i: int| 0 <= i < 0xf && i != 0x5 ==> r.command@[i] == self.command@[i],
    {
        let mut builder = self;
        builder.command.set_cid(cid);
        builder
    }

    /// Chain the model identifier into the command being built.
    pub fn mid(self, mid: u8) -> (r: Self)
        requires
            self.command.wf(),
        ensures
            r.command.wf(),
            r.command.checksum_ok(),
            r.command@[0x6] == mid,
            forall|i: int| 0 <= i < 0xf && i != 0x6 ==> r.command@[i] == self.command@[i],
    {
        let mut builder = self;
        builder.command.set_mid(mid);
        builder
    }
}

/// The command kind that polls the pairing result.
pub struct GetPairingStatus;

impl CommandDescriptor for GetPairingStatus {
    open spec fn spec_base_offset() -> usize {
        0x5
    }

    open spec fn spec_report_id() -> u8 {
        0x8
    }

    open spec fn spec_cmd_len() -> usize {
        0x10
    }

    proof fn layout_properties() {
    }

    fn base_offset() -> usize {
        0x5
    }

    fn report_id() -> u8 {
        0x8
    }

    fn cmd_len() -> usize {
        0x10
    }
}

impl Command<GetPairingStatus> {
    /// A GetWirelessDonglePairResult query.
    pub fn query() -> (c: Self)
        ensures
            c.wf(),
            c.checksum_ok(),
            c@[0x0] == spec_command_id_code(CommandId::GetWirelessDonglePairResult),
            forall|i: int| 0x1 <= i < 0xf ==> c@[i] == 0,
    {
        let mut command = Command::<GetPairingStatus>::default();
        command.set_id(CommandId::GetWirelessDonglePairResult);
        command
    }

    /// The reported pairing status byte.
    pub fn pair_status(&self) -> (r: u8)
        requires
            self.wf(),
        ensures
            r == self@[0x5],
    {
        self.data_byte(0x0)
    }

    /// The reported seconds left in pairing mode.
    pub fn pair_time_left(&self) -> (r: u8)
        requires
            self.wf(),
        ensures
            r == self@[0x6],
    {
        self.data_byte(0x1)
    }
}

/// The command kind that leaves pairing mode.
pub struct ExitPairing;

impl CommandDescriptor for ExitPairing {
    open spec fn spec_base_offset() -> usize {
        0x5
    }

    open spec fn spec_report_id() -> u8 {
        0x8
    }

    open spec fn spec_cmd_len() -> usize {
        0x10
    }

    proof fn layout_properties() {
    }

    fn base_offset() -> usize {
        0x5
    }

    fn report_id() -> u8 {
        0x8
    }

    fn cmd_len() -> usize {
        0x10
    }
}

impl Command<ExitPairing> {
    /// A DongleExitPair query.
    pub fn query() -> (c: Self)
        ensures
            c.wf(),
            c.checksum_ok(),
            c@[0x0] == spec_command_id_code(CommandId::DongleExitPair),
            forall|i: int| 0x1 <= i < 0xf ==> c@[i] == 0,
    {
        let mut command = Command::<ExitPairing>::default();
        command.set_id(CommandId::DongleExitPair);
        command
    }
}

} // verus!
