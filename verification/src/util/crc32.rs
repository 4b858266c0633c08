//! CRC-32 (IEEE 802.3, reflected), as PLDM version data carries it.

use vstd::prelude::*;

verus! {

/// The reflected generator polynomial.
pub const CRC32_POLY: u32 = 0xEDB8_8320;

/// One bit of the division.
pub open spec fn crc_bit(c: u32) -> u32 {
    if c & 1 == 1 {
        (c >> 1) ^ CRC32_POLY
    } else {
        c >> 1
    }
}

/// `n` bits of the division.
pub open spec fn crc_bits(c: u32, n: nat) -> u32
    decreases n,
{
    if n == 0 {
        c
    } else {
        crc_bits(crc_bit(c), (n - 1) as nat)
    }
}

/// The register after one more byte.
pub open spec fn crc_byte(c: u32, b: u8) -> u32 {
    crc_bits(c ^ (b as u32), 8)
}

/// The register after the bytes of `s`, from `c`.
pub open spec fn crc_fold(c: u32, s: Seq<u8>) -> u32
    decreases s.len(),
{
    if s.len() == 0 {
        c
    } else {
        crc_fold(crc_byte(c, s[0]), s.skip(1))
    }
}

/// The CRC-32 of `s`: the register starts with all bits set and ends inverted.
pub open spec fn spec_crc32(s: Seq<u8>) -> u32 {
    !crc_fold(0xFFFF_FFFF, s)
}

fn bit_step(c: u32) -> (r: u32)
    ensures
        r == crc_bit(c),
{
    if c & 1 == 1 {
        (c >> 1) ^ CRC32_POLY
    } else {
        c >> 1
    }
}

fn byte_step(c: u32, b: u8) -> (r: u32)
    ensures
        r == crc_byte(c, b),
{
    let mut x = c ^ (b as u32);
    let ghost x0 = x;
    let mut k: usize = 0;
    while k < 8
        invariant
            0 <= k <= 8,
            x0 == c ^ (b as u32),
            crc_bits(x0, 8) == crc_bits(x, (8 - k) as nat),
        decreases 8 - k,
    {
        x = bit_step(x);
        k = k + 1;
    }
    x
}

/// The CRC-32 of `data`.
pub fn crc32(data: &[u8]) -> (r: u32)
    ensures
        r == spec_crc32(data@),
{
    let mut c: u32 = 0xFFFF_FFFF;
    let mut i: usize = 0;
    assert(data@.skip(0) =~= data@);
    while i < data.len()
        invariant
            0 <= i <= data@.len(),
            crc_fold(0xFFFF_FFFF, data@) == crc_fold(c, data@.skip(i as int)),
        decreases data@.len() - i,
    {
        assert(data@.skip(i as int).skip(1) =~= data@.skip(i + 1));
        c = byte_step(c, data[i]);
        i = i + 1;
    }
    !c
}

} // verus!
