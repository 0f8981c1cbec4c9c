use vstd::prelude::*;

verus! {

/// The high four bits of a byte.
pub fn upper_nibble(byte: u8) -> (r: u8)
    ensures
        r == byte / 16,
        r < 16,
{
    let r = (byte & 0xF0) >> 4;
    assert(((byte & 0xF0) >> 4) == byte / 16) by (bit_vector);
    r
}

/// The low four bits of a byte.
pub fn lower_nibble(byte: u8) -> (r: u8)
    ensures
        r == byte % 16,
{
    let r = byte & 0x0F;
    assert((byte & 0x0F) == byte % 16) by (bit_vector);
    r
}

} // verus!
