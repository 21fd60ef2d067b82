//! Fields of the Ownship Geometric Altitude message.
use vstd::prelude::*;

verus! {

/// Raw Vertical Figure of Merit meaning "not available".
pub const VFOM_UNAVAILABLE: u16 = 0x7FFF;

/// Vertical Figure of Merit, in meters.
#[derive(Debug, Clone, Copy, PartialEq, Eq, Structural)]
pub enum Vfom {
    Available(u16),
    Unavailable,
}

/// The figure of merit held in the low 15 bits of `input`; all ones means unavailable.
pub open spec fn vfom_of(input: u16) -> Vfom {
    if input % 0x8000 == 0x7FFF {
        Vfom::Unavailable
    } else {
        Vfom::Available((input % 0x8000) as u16)
    }
}

impl Vfom {
    /// Decodes the 15-bit figure of merit in the low bits of `input`; bit 15 is ignored.
    pub fn from_bytes(input: u16) -> (r: Vfom)
        ensures
            r == vfom_of(input),
    {
        let masked: u16 = input & 0x7FFF;
        assert(masked == input % 0x8000) by (bit_vector)
            requires
                masked == input & 0x7FFF,
        ;
        if masked == VFOM_UNAVAILABLE {
            Vfom::Unavailable
        } else {
            Vfom::Available(masked)
        }
    }
}

/// The 16-bit Vertical Metrics field: the figure of merit in bits 0..15 and the vertical
/// warning indicator in bit 15, sent least significant byte first.
#[derive(Debug, Clone, Copy, PartialEq, Eq, Structural)]
pub struct VerticalMetrics {
    bits: u16,
}

impl VerticalMetrics {
    /// The field as one 16-bit number.
    pub closed spec fn value(self) -> u16 {
        self.bits
    }

    /// Reads the field from its two wire bytes.
    pub fn from_bytes(bytes: [u8; 2]) -> (r: VerticalMetrics)
        ensures
            r.value() == bytes@[0] + 256 * bytes@[1],
    {
        let lo: u16 = bytes[0] as u16;
        let hi: u16 = bytes[1] as u16;
        VerticalMetrics { bits: lo + hi * 256 }
    }

    pub fn vertical_figure_of_merit(&self) -> (r: Vfom)
        ensures
            r == vfom_of(self.value()),
    {
        Vfom::from_bytes(self.bits)
    }

    pub fn vertical_warning_indicator(&self) -> (r: bool)
        ensures
            r == (self.value() >= 0x8000),
    {
        self.bits >= 0x8000
    }
}

} // verus!
