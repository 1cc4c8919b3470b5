//! The FIT 16-bit CRC, computed four bits at a time over a table of sixteen
//! entries. A file's trailing CRC covers every byte before it; a 14-byte
//! file header's CRC covers its first 12 bytes.
use vstd::prelude::*;

verus! {

/// The FIT CRC table entry for a four-bit value.
pub open spec fn crc_table(nibble: u16) -> u16 {
    match nibble {
        0 => 0x0000u16,
        1 => 0xCC01,
        2 => 0xD801,
        3 => 0x1400,
        4 => 0xF001,
        5 => 0x3C00,
        6 => 0x2800,
        7 => 0xE401,
        8 => 0xA001,
        9 => 0x6C00,
        10 => 0x7800,
        11 => 0xB401,
        12 => 0x5000,
        13 => 0x9C01,
        14 => 0x8801,
        _ => 0x4400,
    }
}

fn table_entry(nibble: u16) -> (r: u16)
    requires
        nibble < 16,
    ensures
        r == crc_table(nibble),
{
    match nibble {
        0 => 0x0000u16,
        1 => 0xCC01,
        2 => 0xD801,
        3 => 0x1400,
        4 => 0xF001,
        5 => 0x3C00,
        6 => 0x2800,
        7 => 0xE401,
        8 => 0xA001,
        9 => 0x6C00,
        10 => 0x7800,
        11 => 0xB401,
        12 => 0x5000,
        13 => 0x9C01,
        14 => 0x8801,
        _ => 0x4400,
    }
}

/// One nibble step of the CRC.
pub open spec fn crc_nibble(crc: u16, nibble: u16) -> u16 {
    ((crc >> 4u16) & 0x0FFFu16) ^ crc_table(crc & 0xFu16) ^ crc_table(nibble)
}

/// The CRC after one more byte: its low nibble first, then its high one.
pub open spec fn crc_step(crc: u16, byte: u8) -> u16 {
    crc_nibble(crc_nibble(crc, (byte & 0xFu8) as u16), ((byte >> 4u8) & 0xFu8) as u16)
}

/// The CRC of a byte sequence, starting from zero.
pub open spec fn crc_of(b: Seq<u8>) -> u16
    decreases b.len(),
{
    if b.len() == 0 {
        0
    } else {
        crc_step(crc_of(b.drop_last()), b.last())
    }
}

/// Folds one byte into a running CRC.
pub fn crc_update(crc: u16, byte: u8) -> (r: u16)
    ensures
        r == crc_step(crc, byte),
{
    let lo: u16 = (byte & 0xF) as u16;
    let hi: u16 = ((byte >> 4) & 0xF) as u16;
    assert(crc & 0xFu16 < 16) by (bit_vector);
    assert(byte & 0xFu8 < 16) by (bit_vector);
    assert((byte >> 4u8) & 0xFu8 < 16) by (bit_vector);
    let c1 = ((crc >> 4) & 0x0FFF) ^ table_entry(crc & 0xF) ^ table_entry(lo);
    assert(c1 & 0xFu16 < 16) by (bit_vector);
    ((c1 >> 4) & 0x0FFF) ^ table_entry(c1 & 0xF) ^ table_entry(hi)
}

/// The FIT CRC of `b`.
pub fn crc(b: &[u8]) -> (r: u16)
    ensures
        r == crc_of(b@),
{
    let mut c: u16 = 0;
    let mut i: usize = 0;
    while i < b.len()
        invariant
            0 <= i <= b@.len(),
            c == crc_of(b@.take(i as int)),
        decreases b@.len() - i,
    {
        assert(b@.take(i as int + 1).drop_last() =~= b@.take(i as int));
        c = crc_update(c, b[i]);
        i = i + 1;
    }
    assert(b@.take(i as int) =~= b@);
    c
}

} // verus!
