//! Bit- and byte-level building blocks: 32-bit rotation and big-endian
//! conversions between bytes and words.

use vstd::prelude::*;

verus! {

/// Circular left rotation of a 32-bit word by `n` bits, `0 < n < 32`.
pub open spec fn rotl(x: u32, n: u32) -> u32
    recommends
        0 < n < 32,
{
    (x << n) | (x >> ((32 - n) as u32))
}

/// The 32-bit word read from four bytes, most significant byte first.
pub open spec fn word_be(b0: u8, b1: u8, b2: u8, b3: u8) -> u32 {
    ((b0 as u32) << 24) | ((b1 as u32) << 16) | ((b2 as u32) << 8) | (b3 as u32)
}

/// Reads a big-endian 32-bit word from the first four bytes of `u8s`.
pub fn u8s_to_u32(u8s: &[u8]) -> (r: u32)
    requires
        u8s@.len() == 4,
    ensures
        r == word_be(u8s@[0], u8s@[1], u8s@[2], u8s@[3]),
{
    ((u8s[0] as u32) << 24u32) | ((u8s[1] as u32) << 16u32) | ((u8s[2] as u32) << 8u32) | (
    u8s[3] as u32)
}

} // verus!
