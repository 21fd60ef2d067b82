//! The frame-check sequence: a table-driven CRC-16 with polynomial 0x1021 and a zero
//! initial register, accumulated most-significant byte first.
use vstd::prelude::*;

verus! {

/// Generator polynomial of the frame-check sequence.
pub const GDL90_CRC_POLY: u16 = 0x1021;

/// One step of the bitwise division: shift left by one and fold the polynomial in when
/// the bit shifted out was set.
pub open spec fn poly_step(c: u16) -> u16 {
    if c & 0x8000u16 == 0 {
        c << 1u16
    } else {
        (c << 1u16) ^ 0x1021u16
    }
}

/// `n` division steps starting from `c`.
pub open spec fn poly_steps(c: u16, n: nat) -> u16
    decreases n,
{
    if n == 0 {
        c
    } else {
        poly_steps(poly_step(c), (n - 1) as nat)
    }
}

/// Entry `i` of the 256-entry lookup table: eight division steps on `i` placed in the high byte.
pub open spec fn crc_table_entry(i: u8) -> u16 {
    poly_steps((i as u16) << 8u16, 8)
}

/// The register after one more byte.
pub open spec fn crc_update(crc: u16, b: u8) -> u16 {
    crc_table_entry((crc >> 8u16) as u8) ^ (crc << 8u16) ^ (b as u16)
}

/// The frame-check sequence of `s`, accumulated from a zero register.
pub open spec fn crc_of(s: Seq<u8>) -> u16
    decreases s.len(),
{
    if s.len() == 0 {
        0
    } else {
        crc_update(crc_of(s.drop_last()), s.last())
    }
}

/// Builds the 256-entry lookup table.
pub fn crc_table() -> (table: Vec<u16>)
    ensures
        table@.len() == 256,
        forall|i: int| 0 <= i < 256 ==> table@[i] == #[trigger] crc_table_entry(i as u8),
{
    let mut table: Vec<u16> = Vec::with_capacity(256);
    let mut i: usize = 0;
    while i < 256
        invariant
            i <= 256,
            table@.len() == i,
            forall|j: int| 0 <= j < i ==> table@[j] == #[trigger] crc_table_entry(j as u8),
        decreases 256 - i,
    {
        let start: u16 = (i as u8 as u16) << 8u16;
        let mut c: u16 = start;
        let mut k: usize = 0;
        while k < 8
            invariant
                k <= 8,
                poly_steps(c, (8 - k) as nat) == poly_steps(start, 8),
            decreases 8 - k,
        {
            let next: u16 = if c & 0x8000 == 0 {
                c << 1u16
            } else {
                (c << 1u16) ^ GDL90_CRC_POLY
            };
            assert(next == poly_step(c));
            c = next;
            k = k + 1;
        }
        assert(c == crc_table_entry(i as u8));
        table.push(c);
        i = i + 1;
    }
    table
}

/// Computes the frame-check sequence of `data`.
pub fn gdl90_crc(data: &[u8]) -> (r: u16)
    ensures
        r == crc_of(data@),
{
    let table = crc_table();
    let mut crc: u16 = 0;
    let mut i: usize = 0;
    while i < data.len()
        invariant
            i <= data@.len(),
            table@.len() == 256,
            forall|j: int| 0 <= j < 256 ==> table@[j] == #[trigger] crc_table_entry(j as u8),
            crc == crc_of(data@.subrange(0, i as int)),
        decreases data@.len() - i,
    {
        let b = data[i];
        assert(crc >> 8u16 < 256) by (bit_vector);
        let hi: u8 = (crc >> 8u16) as u8;
        let next: u16 = table[hi as usize] ^ (crc << 8u16) ^ (b as u16);
        assert(next == crc_update(crc, b));
        proof {
            let s = data@.subrange(0, i as int + 1);
            assert(s.drop_last() =~= data@.subrange(0, i as int));
            assert(s.last() == b);
        }
        crc = next;
        i = i + 1;
    }
    assert(data@.subrange(0, data@.len() as int) =~= data@);
    crc
}

} // verus!
