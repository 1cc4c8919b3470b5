use vstd::prelude::*;

verus! {

/// Whether bit `i` (0 = least significant) of `byte` is set.
pub fn is_bit_set(byte: u8, i: u8) -> (r: bool)
    requires
        i < 8,
    ensures
        r == ((byte >> i) & 1 == 1),
{
    (byte >> i) & 1 == 1
}

/// Whether bit `i` (0 = least significant) of `byte` is clear.
pub fn is_bit_not_set(byte: u8, i: u8) -> (r: bool)
    requires
        i < 8,
    ensures
        r == ((byte >> i) & 1 == 0),
{
    (byte >> i) & 1 == 0
}

/// The mask of the `n` lowest bits of a byte.
pub open spec fn low_mask(n: u8) -> u8
    recommends
        1 <= n <= 8,
{
    (((1u16 << n) - 1) as u8)
}

/// The bits `lo..=hi` of `byte`, shifted down to start at bit 0.
pub fn bit_range(byte: u8, lo: u8, hi: u8) -> (r: u8)
    requires
        lo <= hi < 8,
    ensures
        r == (byte >> lo) & low_mask((hi - lo + 1) as u8),
{
    let n: u8 = hi - lo + 1;
    assert(1u16 << n >= 1 && 1u16 << n <= 256) by (bit_vector)
        requires
            1 <= n <= 8,
    ;
    let mask: u8 = ((1u16 << n) - 1) as u8;
    (byte >> lo) & mask
}

} // verus!
