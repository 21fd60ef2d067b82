//! Message bodies and the bit-level codecs of their fields.
use vstd::arithmetic::power2::pow2;
use vstd::bits::lemma_u8_shr_is_div;
use vstd::prelude::*;

pub mod heartbeat;
pub mod initialization;
pub mod ownship_geometric_altitude;
pub mod report;
pub mod uplink_data;

verus! {

/// The three bytes of a 24-bit field, in wire order, read as a big-endian number. The field is
/// handed over as `input`, which holds wire byte `k` at bits `8k .. 8k + 8`.
pub open spec fn wire_be24(input: u32) -> int {
    (input % 256) * 65536 + ((input / 256) % 256) * 256 + (input / 65536) % 256
}

/// The value of a 24-bit field in wire byte order (see [`wire_be24`]).
pub(crate) fn be24_value(input: u32) -> (r: u32)
    ensures
        r == wire_be24(input),
        r < 0x1000000,
{
    let b0: u32 = input & 0xFF;
    let b1: u32 = (input >> 8u32) & 0xFF;
    let b2: u32 = (input >> 16u32) & 0xFF;
    assert(b0 == input % 256 && b1 == (input / 256) % 256 && b2 == (input / 65536) % 256)
        by (bit_vector)
        requires
            b0 == input & 0xFF,
            b1 == (input >> 8u32) & 0xFF,
            b2 == (input >> 16u32) & 0xFF,
    ;
    b0 * 0x10000 + b1 * 0x100 + b2
}

/// Bit `i` of `b` is set.
pub open spec fn bit_at(b: u8, i: nat) -> bool {
    (b as nat / pow2(i)) % 2 == 1
}

/// Reads bit `i` of `b`.
pub(crate) fn bit(b: u8, i: u8) -> (r: bool)
    requires
        i < 8,
    ensures
        r == bit_at(b, i as nat),
{
    let shifted: u8 = b >> i;
    proof {
        lemma_u8_shr_is_div(b, i);
    }
    assert((shifted & 1 == 1) == (shifted % 2 == 1)) by (bit_vector);
    shifted & 1 == 1
}

} // verus!
