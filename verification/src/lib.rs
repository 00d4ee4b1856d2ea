//! Host-side protocol layer for a wireless gaming mouse that speaks a
//! fixed-size HID report format: a checksummed 16-byte packet codec,
//! nonlinear DPI and RGB field codecs, and a profile cache kept in sync
//! with the device by a read-modify-write discipline.

use vstd::prelude::*;

pub mod battery;
pub mod checksum;
pub mod command;
pub mod download_data;
pub mod dpi;
pub mod dpi_led;
pub mod dpi_profiles;
pub mod engine;
pub mod factory_reset;
pub mod far_distance;
pub mod ids;
pub mod manager;
pub mod mouse_info;
pub mod pairing;
pub mod performance;
pub mod silent_height;
pub mod types;

verus! {

/// Protocol-level failures: buffer shape, checksum disagreement, bad
/// field offsets, out-of-range discriminants, transport trouble, and the
/// profile-count business rule.
#[derive(Clone, Copy, Debug, PartialEq, Eq, Structural)]
pub enum Error {
    LengthMismatch,
    ChecksumError,
    OffsetBelowBase,
    OffsetOutOfRange,
    UnalignedOffset,
    TransportError,
    ProfileLimitReached,
    InvalidEnumValue,
}

impl Error {
    /// Short human-readable description of the failure.
    pub fn message(&self) -> (r: &'static str)
        ensures r@.len() > 0,
    {
        let s = match self {
            Error::LengthMismatch => "buffer length does not match the command length",
            Error::ChecksumError => "checksum mismatch",
            Error::OffsetBelowBase => "provided offset is less than the base offset",
            Error::OffsetOutOfRange => "provided offset is greater than the length of the data payload",
            Error::UnalignedOffset => "provided offset is not aligned to a byte pair boundary",
            Error::TransportError => "transport failure",
            Error::ProfileLimitReached => "maximum number of profiles reached",
            Error::InvalidEnumValue => "invalid enumeration value",
        };
        proof {
            reveal_strlit("buffer length does not match the command length");
            reveal_strlit("checksum mismatch");
            reveal_strlit("provided offset is less than the base offset");
            reveal_strlit("provided offset is greater than the length of the data payload");
            reveal_strlit("provided offset is not aligned to a byte pair boundary");
            reveal_strlit("transport failure");
            reveal_strlit("maximum number of profiles reached");
            reveal_strlit("invalid enumeration value");
        }
        s
    }
}

} // verus!
