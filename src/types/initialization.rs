//! Configuration bytes of the Initialization message.
use vstd::prelude::*;

use crate::types::{bit, bit_at};

verus! {

/// Initialization Configuration Byte 1. Bits 2 to 5 and 7 are reserved.
#[derive(Debug, Clone, Copy, PartialEq, Eq, Structural)]
pub struct ConfigurationByte1 {
    bits: u8,
}

impl ConfigurationByte1 {
    /// The byte as received.
    pub closed spec fn value(self) -> u8 {
        self.bits
    }

    pub fn from_bytes(bytes: [u8; 1]) -> (r: ConfigurationByte1)
        ensures
            r.value() == bytes@[0],
    {
        ConfigurationByte1 { bits: bytes[0] }
    }

    /// The traffic display (CDTI) is operating. (bit 0)
    pub fn cdti_ok(&self) -> (r: bool)
        ensures
            r == bit_at(self.value(), 0),
    {
        bit(self.bits, 0)
    }

    /// Suppress audio output. (bit 1)
    pub fn audio_inhibit(&self) -> (r: bool)
        ensures
            r == bit_at(self.value(), 1),
    {
        bit(self.bits, 1)
    }

    /// Start an audio test. (bit 6)
    pub fn audio_test(&self) -> (r: bool)
        ensures
            r == bit_at(self.value(), 6),
    {
        bit(self.bits, 6)
    }
}

/// Initialization Configuration Byte 2. Bits 2 to 7 are reserved.
#[derive(Debug, Clone, Copy, PartialEq, Eq, Structural)]
pub struct ConfigurationByte2 {
    bits: u8,
}

impl ConfigurationByte2 {
    /// The byte as received.
    pub closed spec fn value(self) -> u8 {
        self.bits
    }

    pub fn from_bytes(bytes: [u8; 1]) -> (r: ConfigurationByte2)
        ensures
            r.value() == bytes@[0],
    {
        ConfigurationByte2 { bits: bytes[0] }
    }

    /// Disable audible traffic alerts. (bit 0)
    pub fn csa_audio_disable(&self) -> (r: bool)
        ensures
            r == bit_at(self.value(), 0),
    {
        bit(self.bits, 0)
    }

    /// Disable Conflict Situational Awareness alerting. (bit 1)
    pub fn csa_disable(&self) -> (r: bool)
        ensures
            r == bit_at(self.value(), 1),
    {
        bit(self.bits, 1)
    }
}

} // verus!
