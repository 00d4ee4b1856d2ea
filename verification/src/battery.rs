//! The battery query domain: charge level, charging flag and the raw
//! voltage reading in tenths of a volt.

use vstd::prelude::*;

use crate::command::{Command, CommandDescriptor};
use crate::ids::{spec_command_id_code, CommandId};

verus! {

/// A decoded battery report. The voltage is kept as the raw byte in
/// tenths of a volt; scaling to volts is a display concern.
#[derive(Clone, Copy, Debug, PartialEq, Eq, Structural)]
pub struct GetBatteryStatus {
    pub level: u8,
    pub charge: u8,
    pub voltage_decivolts: u8,
}

impl Default for GetBatteryStatus {
    fn default() -> (r: Self)
        ensures
            r == (GetBatteryStatus { level: 0, charge: 0, voltage_decivolts: 0 }),
    {
        GetBatteryStatus { level: 0, charge: 0, voltage_decivolts: 0 }
    }
}

impl GetBatteryStatus {
    pub fn level(&self) -> (r: u8)
        ensures
            r == self.level,
    {
        self.level
    }

    pub fn charge(&self) -> (r: u8)
        ensures
            r == self.charge,
    {
        self.charge
    }

    pub fn voltage_decivolts(&self) -> (r: u8)
        ensures
            r == self.voltage_decivolts,
    {
        self.voltage_decivolts
    }
}

impl CommandDescriptor for GetBatteryStatus {
    open spec fn spec_base_offset() -> usize {
        0x5
    }

    open spec fn spec_report_id() -> u8 {
        0x8
    }

    open spec fn spec_cmd_len() -> usize {
        0x10
    }

    proof fn layout_properties() {
    }

    fn base_offset() -> usize {
        0x5
    }

    fn report_id() -> u8 {
        0x8
    }

    fn cmd_len() -> usize {
        0x10
    }
}

impl Command<GetBatteryStatus> {
    /// A GetBatteryLevel query.
    pub fn query() -> (c: Self)
        ensures
            c.wf(),
            c.checksum_ok(),
            c@[0x0] == spec_command_id_code(CommandId::GetBatteryLevel),
            forall|i: int| 0x1 <= i < 0xf ==> c@[i] == 0,
    {
        let mut command = Command::<GetBatteryStatus>::default();
        command.set_id(CommandId::GetBatteryLevel);
        command
    }

    /// Decode a response into the battery report.
    pub fn config(self) -> (r: GetBatteryStatus)
        requires
            self.wf(),
        ensures
            r == (GetBatteryStatus {
                level: self@[0x5],
                charge: self@[0x6],
                voltage_decivolts: self@[0x7],
            }),
    {
        GetBatteryStatus {
            level: self.data_byte(0x0),
            charge: self.data_byte(0x1),
            voltage_decivolts: self.data_byte(0x2),
        }
    }
}

} // verus!
