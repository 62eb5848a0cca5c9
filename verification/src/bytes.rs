//! Little-endian integer reads over an untrusted byte region.

use vstd::prelude::*;

verus! {

/// Little-endian value of the two bytes of `b` starting at `i`.
pub open spec fn u16_le(b: Seq<u8>, i: int) -> int {
    b[i] + b[i + 1] * 0x100
}

/// Little-endian value of the four bytes of `b` starting at `i`.
pub open spec fn u32_le(b: Seq<u8>, i: int) -> int {
    b[i] + b[i + 1] * 0x100 + b[i + 2] * 0x10000 + b[i + 3] * 0x1000000
}

/// Little-endian value of the eight bytes of `b` starting at `i`.
pub open spec fn u64_le(b: Seq<u8>, i: int) -> int {
    u32_le(b, i) + u32_le(b, i + 4) * 0x100000000
}

/// Every little-endian 64-bit read fits in a `u64`.
pub proof fn lemma_u64_le_bound(b: Seq<u8>, i: int)
    ensures
        0 <= u64_le(b, i) < 0x1_0000_0000_0000_0000,
{
}

pub fn read_u16(b: &[u8], off: usize) -> (r: u16)
    requires
        off + 2 <= b@.len(),
    ensures
        r == u16_le(b@, off as int),
{
    let lo = b[off] as u16;
    let hi = b[off + 1] as u16;
    lo + hi * 0x100
}

pub fn read_u32(b: &[u8], off: usize) -> (r: u32)
    requires
        off + 4 <= b@.len(),
    ensures
        r == u32_le(b@, off as int),
{
    let b0 = b[off] as u32;
    let b1 = b[off + 1] as u32;
    let b2 = b[off + 2] as u32;
    let b3 = b[off + 3] as u32;
    b0 + b1 * 0x100 + b2 * 0x10000 + b3 * 0x1000000
}

pub fn read_u64(b: &[u8], off: usize) -> (r: u64)
    requires
        off + 8 <= b@.len(),
    ensures
        r == u64_le(b@, off as int),
{
    let len: usize = b.len();
    proof {
        assert(off + 8 <= len as int);
    }
    let lo = read_u32(b, off) as u64;
    let hi = read_u32(b, off + 4) as u64;
    lo + hi * 0x100000000
}

} // verus!
