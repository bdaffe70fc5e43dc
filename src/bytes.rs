//! Little-endian integers read from byte slices.
use vstd::prelude::*;

verus! {

/// The little-endian `u16` held by the two bytes at `off`.
pub open spec fn le_u16(d: Seq<u8>, off: int) -> int {
    d[off] as int + 256 * d[off + 1] as int
}

/// The little-endian `u64` held by the eight bytes at `off`.
pub open spec fn le_u64(d: Seq<u8>, off: int) -> int {
    le_u32(d, off) + 0x1_0000_0000 * le_u32(d, off + 4)
}

/// The little-endian `u32` held by the four bytes at `off`.
pub open spec fn le_u32(d: Seq<u8>, off: int) -> int {
    le_u16(d, off) + 0x1_0000 * le_u16(d, off + 2)
}

/// Reads the little-endian `u16` at `off`.
pub fn read_u16_le(data: &[u8], off: usize) -> (r: u16)
    requires
        off + 2 <= data@.len(),
    ensures
        r as int == le_u16(data@, off as int),
{
    let lo = data[off] as u16;
    let hi = data[off + 1] as u16;
    lo + 256 * hi
}

/// Reads the little-endian `u64` at `off`.
pub fn read_u64_le(data: &[u8], off: usize) -> (r: u64)
    requires
        off + 8 <= data@.len(),
    ensures
        r as int == le_u64(data@, off as int),
{
    let _n = data.len();
    let a = read_u16_le(data, off) as u64;
    let b = read_u16_le(data, off + 2) as u64;
    let c = read_u16_le(data, off + 4) as u64;
    let d = read_u16_le(data, off + 6) as u64;
    a + 0x1_0000 * b + 0x1_0000_0000 * c + 0x1_0000_0000_0000 * d
}

} // verus!
