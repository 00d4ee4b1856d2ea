//! The factory reset command kind.

use vstd::prelude::*;

use crate::command::{Command, CommandDescriptor};
use crate::ids::{spec_command_id_code, CommandId};

verus! {

/// The command kind that restores factory settings.
pub struct FactoryReset;

impl CommandDescriptor for FactoryReset {
    open spec fn spec_base_offset() -> usize {
        0x5
    }

    open spec fn spec_report_id() -> u8 {
        0x8
    }

    open spec fn spec_cmd_len() -> usize {
        0x10
    }

    proof fn layout_properties() {
    }

    fn base_offset() -> usize {
        0x5
    }

    fn report_id() -> u8 {
        0x8
    }

    fn cmd_len() -> usize {
        0x10
    }
}

impl Command<FactoryReset> {
    /// A RestoreFactory command.
    pub fn query() -> (c: Self)
        ensures
            c.wf(),
            c.checksum_ok(),
            c@[0x0] == spec_command_id_code(CommandId::RestoreFactory),
            forall|i: int| 0x1 <= i < 0xf ==> c@[i] == 0,
    {
        let mut command = Command::<FactoryReset>::default();
        command.set_id(CommandId::RestoreFactory);
        command
    }
}

} // verus!
