use vstd::prelude::*;

verus! {

/// The reflected CRC-32 polynomial (IEEE 802.3).
pub const CRC32_POLY: u32 = 0xEDB8_8320;

/// One shift of the bitwise CRC-32 register.
pub open spec fn crc_shift(c: u32) -> u32 {
    if c & 1 == 1 {
        (c >> 1) ^ CRC32_POLY
    } else {
        c >> 1
    }
}

/// `n` consecutive shifts of the register.
pub open spec fn crc_shifts(c: u32, n: nat) -> u32
    decreases n,
{
    if n == 0 {
        c
    } else {
        crc_shift(crc_shifts(c, (n - 1) as nat))
    }
}

/// Feeds one byte into the register.
pub open spec fn crc_feed_byte(c: u32, b: u8) -> u32 {
    crc_shifts(c ^ (b as u32), 8)
}

/// Feeds a sequence of bytes, first to last, into the register.
pub open spec fn crc_feed(c: u32, data: Seq<u8>) -> u32
    decreases data.len(),
{
    if data.len() == 0 {
        c
    } else {
        crc_feed_byte(crc_feed(c, data.drop_last()), data.last())
    }
}

/// The CRC-32 checksum (as used by zip, png and the BPS format) of `data`.
pub open spec fn spec_crc32(data: Seq<u8>) -> u32 {
    crc_feed(0xFFFF_FFFF, data) ^ 0xFFFF_FFFF
}

/// Computes the CRC-32 checksum of `data`.
pub fn crc32(data: &[u8]) -> (r: u32)
    ensures
        r == spec_crc32(data@),
{
    let mut c: u32 = 0xFFFF_FFFF;
    let n = data.len();
    let mut i: usize = 0;
    while i < n
        invariant
            n == data@.len(),
            i <= n,
            c == crc_feed(0xFFFF_FFFF, data@.take(i as int)),
        decreases n - i,
    {
        let b = data[i];
        let mut x: u32 = c ^ (b as u32);
        let ghost start = x;
        let mut k: usize = 0;
        while k < 8
            invariant
                k <= 8,
                x == crc_shifts(start, k as nat),
            decreases 8 - k,
        {
            x = if x & 1 == 1 {
                (x >> 1) ^ CRC32_POLY
            } else {
                x >> 1
            };
            k = k + 1;
        }
        assert(data@.take(i + 1).drop_last() =~= data@.take(i as int));
        c = x;
        i = i + 1;
    }
    assert(data@.take(n as int) =~= data@);
    c ^ 0xFFFF_FFFF
}

} // verus!
