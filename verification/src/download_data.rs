//! Link and identity queries: download data (connection type, CID and
//! MID), driver status, the wireless online poll, and version queries.

use vstd::prelude::*;

use crate::command::{Command, CommandDescriptor};
use crate::ids::{spec_command_id_code, CommandId};

verus! {

/// How the mouse is connected; decoding is total, an unknown byte reads
/// as the plain dongle link.
#[derive(Clone, Copy, Debug, PartialEq, Eq, Structural)]
pub enum ConnectionType {
    Dongle1K,
    Dongle4K,
    Wired1K,
    Wired8K,
    Dongle2K,
    Dongle8K,
}

pub open spec fn spec_connection_type_from(v: u8) -> ConnectionType {
    match v {
        0x0 => ConnectionType::Dongle1K,
        0x1 => ConnectionType::Dongle4K,
        0x2 => ConnectionType::Wired1K,
        0x3 => ConnectionType::Wired8K,
        0x4 => ConnectionType::Dongle2K,
        0x5 => ConnectionType::Dongle8K,
        _ => ConnectionType::Dongle1K,
    }
}

impl Default for ConnectionType {
    fn default() -> (r: Self)
        ensures
            r == ConnectionType::Dongle1K,
    {
        ConnectionType::Dongle1K
    }
}

impl ConnectionType {
    pub fn from_byte(value: u8) -> (r: ConnectionType)
        ensures
            r == spec_connection_type_from(value),
    {
        match value {
            0x1 => ConnectionType::Dongle4K,
            0x2 => ConnectionType::Wired1K,
            0x3 => ConnectionType::Wired8K,
            0x4 => ConnectionType::Dongle2K,
            0x5 => ConnectionType::Dongle8K,
            _ => ConnectionType::Dongle1K,
        }
    }
}

/// The download-data domain: encrypted pairing data, CID, MID and the
/// connection type.
#[derive(Clone, Copy, Debug)]
pub struct DownloadData {
    pub encrypted_data: [u8; 4],
    pub cid: u8,
    pub mid: u8,
    pub device_type: ConnectionType,
}

/// `d` is exactly what the payload of `s` decodes to.
pub open spec fn spec_download_data_matches(d: DownloadData, s: Seq<u8>) -> bool {
    &&& d.encrypted_data@ =~= s.subrange(0x5, 0x9)
    &&& d.cid == s[0x9]
    &&& d.mid == s[0xa]
    &&& d.device_type == spec_connection_type_from(s[0xb])
}

impl DownloadData {
    pub fn encrypted_data(&self) -> (r: &[u8; 4])
        ensures
            r@ == self.encrypted_data@,
    {
        &self.encrypted_data
    }

    pub fn cid(&self) -> (r: u8)
        ensures
            r == self.cid,
    {
        self.cid
    }

    pub fn mid(&self) -> (r: u8)
        ensures
            r == self.mid,
    {
        self.mid
    }

    pub fn device_type(&self) -> (r: ConnectionType)
        ensures
            r == self.device_type,
    {
        self.device_type
    }

    /// The connection type, under the name callers of the manager use.
    pub fn connection_type(&self) -> (r: ConnectionType)
        ensures
            r == self.device_type,
    {
        self.device_type
    }
}

impl CommandDescriptor for DownloadData {
    open spec fn spec_base_offset() -> usize {
        0x5
    }

    open spec fn spec_report_id() -> u8 {
        0x8
    }

    open spec fn spec_cmd_len() -> usize {
        0x10
    }

    proof fn layout_properties() {
    }

    fn base_offset() -> usize {
        0x5
    }

    fn report_id() -> u8 {
        0x8
    }

    fn cmd_len() -> usize {
        0x10
    }
}

impl Command<DownloadData> {
    /// A DownLoadData query, eight valid data bytes.
    pub fn query() -> (c: Self)
        ensures
            c.wf(),
            c.checksum_ok(),
            c@[0x0] == spec_command_id_code(CommandId::DownLoadData),
            c@[0x4] == 0x8u8,
            forall|i: int| 0x5 <= i < 0xf ==> c@[i] == 0,
    {
        let mut command = Command::<DownloadData>::default();
        command.set_id(CommandId::DownLoadData);
        command.set_valid_data_len(0x8);
        command
    }

    /// Decode a response into the download-data domain.
    pub fn config(self) -> (r: DownloadData)
        requires
            self.wf(),
        ensures
            spec_download_data_matches(r, self@),
    {
        let encrypted_data = [
            self.data_byte(0x0),
            self.data_byte(0x1),
            self.data_byte(0x2),
            self.data_byte(0x3),
        ];
        proof {
            assert(encrypted_data@ =~= self@.subrange(0x5, 0x9));
        }
        DownloadData {
            encrypted_data,
            cid: self.data_byte(0x4),
            mid: self.data_byte(0x5),
            device_type: ConnectionType::from_byte(self.data_byte(0x6)),
        }
    }
}

/// The driver status byte reported by the dongle.
#[derive(Clone, Copy, Debug, PartialEq, Eq, Structural)]
pub struct DriverStatus(pub u8);

impl Default for DriverStatus {
    fn default() -> (r: Self)
        ensures
            r == DriverStatus(0),
    {
        DriverStatus(0)
    }
}

impl CommandDescriptor for DriverStatus {
    open spec fn spec_base_offset() -> usize {
        0x5
    }

    open spec fn spec_report_id() -> u8 {
        0x8
    }

    open spec fn spec_cmd_len() -> usize {
        0x10
    }

    proof fn layout_properties() {
    }

    fn base_offset() -> usize {
        0x5
    }

    fn report_id() -> u8 {
        0x8
    }

    fn cmd_len() -> usize {
        0x10
    }
}

impl Command<DriverStatus> {
    /// A DownLoadDriverStatus query.
    pub fn query() -> (c: Self)
        ensures
            c.wf(),
            c.checksum_ok(),
            c@[0x0] == spec_command_id_code(CommandId::DownLoadDriverStatus),
            forall|i: int| 0x1 <= i < 0xf ==> c@[i] == 0,
    {
        let mut command = Command::<DriverStatus>::default();
        command.set_id(CommandId::DownLoadDriverStatus);
        command
    }

    /// Decode a response into the driver status byte.
    pub fn config(self) -> (r: DriverStatus)
        requires
            self.wf(),
        ensures
            r == DriverStatus(self@[0x5]),
    {
        DriverStatus(self.data_byte(0x0))
    }
}

/// The wireless mouse's reported wake state.
#[derive(Clone, Copy, Debug, PartialEq, Eq, Structural)]
pub enum MouseStatus {
    Dormant,
    Active,
}

/// Total decoding: one means active, anything else dormant.
pub open spec fn spec_mouse_status_from(v: u8) -> MouseStatus {
    if v == 1u8 {
        MouseStatus::Active
    } else {
        MouseStatus::Dormant
    }
}

impl MouseStatus {
    pub fn from_byte(value: u8) -> (r: MouseStatus)
        ensures
            r == spec_mouse_status_from(value),
    {
        if value == 0x1 {
            MouseStatus::Active
        } else {
            MouseStatus::Dormant
        }
    }
}

/// The online poll command kind.
pub struct GetWirelessMouseOnline;

impl CommandDescriptor for GetWirelessMouseOnline {
    open spec fn spec_base_offset() -> usize {
        0x5
    }

    open spec fn spec_report_id() -> u8 {
        0x8
    }

    open spec fn spec_cmd_len() -> usize {
        0x10
    }

    proof fn layout_properties() {
    }

    fn base_offset() -> usize {
        0x5
    }

    fn report_id() -> u8 {
        0x8
    }

    fn cmd_len() -> usize {
        0x10
    }
}

impl Command<GetWirelessMouseOnline> {
    /// A GetWirelessMouseOnline query: the one command the manager may
    /// issue while the mouse is dormant.
    pub fn query() -> (c: Self)
        ensures
            c.wf(),
            c.checksum_ok(),
            c@[0x0] == spec_command_id_code(CommandId::GetWirelessMouseOnline),
            forall|i: int| 0x1 <= i < 0xf ==> c@[i] == 0,
    {
        let mut command = Command::<GetWirelessMouseOnline>::default();
        command.set_id(CommandId::GetWirelessMouseOnline);
        command
    }

    /// The wake state reported in a response.
    pub fn mouse_status(&self) -> (r: MouseStatus)
        requires
            self.wf(),
        ensures
            r == spec_mouse_status_from(self@[0x5]),
    {
        MouseStatus::from_byte(self.data_byte(0x0))
    }
}

/// The mouse's customer and model identifiers.
#[derive(Clone, Copy, Debug, PartialEq, Eq, Structural)]
pub struct GetMouseCidMid(pub u8, pub u8);

impl Default for GetMouseCidMid {
    fn default() -> (r: Self)
        ensures
            r == GetMouseCidMid(0, 0),
    {
        GetMouseCidMid(0, 0)
    }
}

impl GetMouseCidMid {
    pub fn cid(&self) -> (r: u8)
        ensures
            r == self.0,
    {
        self.0
    }

    pub fn mid(&self) -> (r: u8)
        ensures
            r == self.1,
    {
        self.1
    }
}

impl CommandDescriptor for GetMouseCidMid {
    open spec fn spec_base_offset() -> usize {
        0x5
    }

    open spec fn spec_report_id() -> u8 {
        0x8
    }

    open spec fn spec_cmd_len() -> usize {
        0x10
    }

    proof fn layout_properties() {
    }

    fn base_offset() -> usize {
        0x5
    }

    fn report_id() -> u8 {
        0x8
    }

    fn cmd_len() -> usize {
        0x10
    }
}

impl Command<GetMouseCidMid> {
    /// A GetMouseCIDMID query.
    pub fn query() -> (c: Self)
        ensures
            c.wf(),
            c.checksum_ok(),
            c@[0x0] == spec_command_id_code(CommandId::GetMouseCIDMID),
            forall|i: int| 0x1 <= i < 0xf ==> c@[i] == 0,
    {
        let mut command = Command::<GetMouseCidMid>::default();
        command.set_id(CommandId::GetMouseCIDMID);
        command
    }

    /// Decode a response into the identifier bytes.
    pub fn config(self) -> (r: GetMouseCidMid)
        requires
            self.wf(),
        ensures
            r == GetMouseCidMid(self@[0x5], self@[0x6]),
    {
        GetMouseCidMid(self.data_byte(0x0), self.data_byte(0x1))
    }
}

/// The mouse's firmware version, major and minor bytes.
#[derive(Clone, Copy, Debug, PartialEq, Eq, Structural)]
pub struct GetMouseVersion(pub u8, pub u8);

impl Default for GetMouseVersion {
    fn default() -> (r: Self)
        ensures
            r == GetMouseVersion(0, 0),
    {
        GetMouseVersion(0, 0)
    }
}

impl GetMouseVersion {
    pub fn major(&self) -> (r: u8)
        ensures
            r == self.0,
    {
        self.0
    }

    pub fn minor(&self) -> (r: u8)
        ensures
            r == self.1,
    {
        self.1
    }
}

impl CommandDescriptor for GetMouseVersion {
    open spec fn spec_base_offset() -> usize {
        0x5
    }

    open spec fn spec_report_id() -> u8 {
        0x8
    }

    open spec fn spec_cmd_len() -> usize {
        0x10
    }

    proof fn layout_properties() {
    }

    fn base_offset() -> usize {
        0x5
    }

    fn report_id() -> u8 {
        0x8
    }

    fn cmd_len() -> usize {
        0x10
    }
}

impl Command<GetMouseVersion> {
    /// A GetMouseVersion query.
    pub fn query() -> (c: Self)
        ensures
            c.wf(),
            c.checksum_ok(),
            c@[0x0] == spec_command_id_code(CommandId::GetMouseVersion),
            forall|i: int| 0x1 <= i < 0xf ==> c@[i] == 0,
    {
        let mut command = Command::<GetMouseVersion>::default();
        command.set_id(CommandId::GetMouseVersion);
        command
    }

    /// Decode a response into the version bytes.
    pub fn config(self) -> (r: GetMouseVersion)
        requires
            self.wf(),
        ensures
            r == GetMouseVersion(self@[0x5], self@[0x6]),
    {
        GetMouseVersion(self.data_byte(0x0), self.data_byte(0x1))
    }
}

} // verus!
