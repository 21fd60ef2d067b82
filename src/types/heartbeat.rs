//! Status bytes of the Heartbeat message.
use vstd::prelude::*;

use crate::types::{bit, bit_at};

verus! {

/// Heartbeat Status Byte 1. Bit 1 is reserved.
#[derive(Debug, Clone, Copy, PartialEq, Eq, Structural)]
pub struct HeartbeatStatusByte1 {
    bits: u8,
}

impl HeartbeatStatusByte1 {
    /// The byte as received.
    pub closed spec fn value(self) -> u8 {
        self.bits
    }

    pub fn from_bytes(bytes: [u8; 1]) -> (r: HeartbeatStatusByte1)
        ensures
            r.value() == bytes@[0],
    {
        HeartbeatStatusByte1 { bits: bytes[0] }
    }

    /// Set in all Heartbeat messages. (bit 0)
    pub fn uat_initialized(&self) -> (r: bool)
        ensures
            r == bit_at(self.value(), 0),
    {
        bit(self.bits, 0)
    }

    /// Present state of the Receiving ATC Services indication in the transmitted ADS-B messages. (bit 2)
    pub fn ratcs(&self) -> (r: bool)
        ensures
            r == bit_at(self.value(), 2),
    {
        bit(self.bits, 2)
    }

    /// The internal GPS battery needs replacing. (bit 3)
    pub fn gps_batt_low(&self) -> (r: bool)
        ensures
            r == bit_at(self.value(), 3),
    {
        bit(self.bits, 3)
    }

    /// ADS-B messages are sent with a temporary self-assigned ("anonymous") address. (bit 4)
    pub fn addr_type(&self) -> (r: bool)
        ensures
            r == bit_at(self.value(), 4),
    {
        bit(self.bits, 4)
    }

    /// The IDENT indication is set in the transmitted ADS-B messages. (bit 5)
    pub fn ident(&self) -> (r: bool)
        ensures
            r == bit_at(self.value(), 5),
    {
        bit(self.bits, 5)
    }

    /// A problem was detected and maintenance is required. (bit 6)
    pub fn maint_reqd(&self) -> (r: bool)
        ensures
            r == bit_at(self.value(), 6),
    {
        bit(self.bits, 6)
    }

    /// A valid position fix is available for ADS-B messages. (bit 7)
    pub fn gps_pos_valid(&self) -> (r: bool)
        ensures
            r == bit_at(self.value(), 7),
    {
        bit(self.bits, 7)
    }
}

/// Heartbeat Status Byte 2. Bits 1 to 4 are reserved.
#[derive(Debug, Clone, Copy, PartialEq, Eq, Structural)]
pub struct HeartbeatStatusByte2 {
    bits: u8,
}

impl HeartbeatStatusByte2 {
    /// The byte as received.
    pub closed spec fn value(self) -> u8 {
        self.bits
    }

    pub fn from_bytes(bytes: [u8; 1]) -> (r: HeartbeatStatusByte2)
        ensures
            r.value() == bytes@[0],
    {
        HeartbeatStatusByte2 { bits: bytes[0] }
    }

    /// A valid UTC timing reference is in use. (bit 0)
    pub fn utc_ok(&self) -> (r: bool)
        ensures
            r == bit_at(self.value(), 0),
    {
        bit(self.bits, 0)
    }

    /// Conflict Situational Awareness was requested but is not available. (bit 5)
    pub fn csa_not_available(&self) -> (r: bool)
        ensures
            r == bit_at(self.value(), 5),
    {
        bit(self.bits, 5)
    }

    /// Conflict Situational Awareness has been requested. (bit 6)
    pub fn csa_requested(&self) -> (r: bool)
        ensures
            r == bit_at(self.value(), 6),
    {
        bit(self.bits, 6)
    }

    /// Most significant bit (bit 16) of the Heartbeat time stamp. (bit 7)
    pub fn timestamp_msb(&self) -> (r: bool)
        ensures
            r == bit_at(self.value(), 7),
    {
        bit(self.bits, 7)
    }
}

} // verus!
