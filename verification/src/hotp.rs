use vstd::prelude::*;

verus! {

/// The four big-endian bytes of a 32-bit value.
pub open spec fn be32_bytes(x: u32) -> Seq<u8> {
    seq![(x >> 24) as u8, (x >> 16) as u8, (x >> 8) as u8, x as u8]
}

/// The 32-bit value read big-endian from four bytes.
pub open spec fn be32_of(b0: u8, b1: u8, b2: u8, b3: u8) -> u32 {
    ((b0 as u32) << 24) | ((b1 as u32) << 16) | ((b2 as u32) << 8) | (b3 as u32)
}

/// The 8-byte counter message for a timestamp: the 30-second step `time / 30`
/// laid out as a 64-bit big-endian counter, so the high four bytes are always
/// zero.
pub open spec fn counter_of(time: u32) -> Seq<u8> {
    seq![0u8, 0u8, 0u8, 0u8] + be32_bytes(time / 30)
}

/// Dynamic truncation of a 20-byte digest: the low nibble of the last byte
/// picks a four-byte window, which is read big-endian with its top bit
/// cleared.
pub open spec fn truncated_of(d: Seq<u8>) -> u32 {
    let off = (d[19] & 0x0F) as int;
    be32_of(d[off], d[off + 1], d[off + 2], d[off + 3]) & 0x7FFF_FFFF
}

/// Builds the counter message for `time`.
pub fn counter_bytes(time: u32) -> (r: Vec<u8>)
    ensures
        r@ == counter_of(time),
{
    let step: u32 = time / 30;
    let mut buf: Vec<u8> = Vec::new();
    buf.push(0);
    buf.push(0);
    buf.push(0);
    buf.push(0);
    buf.push((step >> 24) as u8);
    buf.push((step >> 16) as u8);
    buf.push((step >> 8) as u8);
    buf.push(step as u8);
    proof {
        assert(buf@ =~= counter_of(time));
    }
    buf
}

/// Truncates a 20-byte digest to its 31-bit dynamic-truncation value.
pub fn truncate(d: &Vec<u8>) -> (r: u32)
    requires
        d@.len() == 20,
    ensures
        r == truncated_of(d@),
        r < 0x8000_0000,
{
    let last: u8 = d[19];
    let off: usize = (last & 0x0F) as usize;
    proof {
        assert(last & 0x0F < 16) by (bit_vector);
    }
    let b0 = d[off];
    let b1 = d[off + 1];
    let b2 = d[off + 2];
    let b3 = d[off + 3];
    let word: u32 = ((b0 as u32) << 24) | ((b1 as u32) << 16) | ((b2 as u32) << 8) | (b3 as u32);
    let r: u32 = word & 0x7FFF_FFFF;
    proof {
        assert(word & 0x7FFF_FFFFu32 < 0x8000_0000u32) by (bit_vector);
    }
    r
}

} // verus!
