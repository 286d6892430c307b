//! Little-endian decoding and encoding of fixed-width integers inside byte
//! buffers, with exact specifications relating the executable readers and
//! writers to the mathematical value of the encoded bytes.

use vstd::prelude::*;
use vstd::string::StringSliceAdditionalSpecFns;

verus! {

/// The value of the two little-endian bytes at `off`.
pub open spec fn le16(s: Seq<u8>, off: int) -> int {
    s[off] + 0x100 * s[off + 1]
}

/// The value of the four little-endian bytes at `off`.
pub open spec fn le32(s: Seq<u8>, off: int) -> int {
    le16(s, off) + 0x1_0000 * le16(s, off + 2)
}

/// The value of the eight little-endian bytes at `off`.
pub open spec fn le64(s: Seq<u8>, off: int) -> int {
    le32(s, off) + 0x1_0000_0000 * le32(s, off + 4)
}

/// The bytes of `s` with the eight bytes at `off` replaced by the
/// little-endian encoding of `v` (`0 <= v < 2^64`).
pub open spec fn store_le64(s: Seq<u8>, off: int, v: int) -> Seq<u8> {
    s.update(off, (v % 0x100) as u8)
        .update(off + 1, ((v / 0x100) % 0x100) as u8)
        .update(off + 2, ((v / 0x1_0000) % 0x100) as u8)
        .update(off + 3, ((v / 0x100_0000) % 0x100) as u8)
        .update(off + 4, ((v / 0x1_0000_0000) % 0x100) as u8)
        .update(off + 5, ((v / 0x100_0000_0000) % 0x100) as u8)
        .update(off + 6, ((v / 0x1_0000_0000_0000) % 0x100) as u8)
        .update(off + 7, ((v / 0x100_0000_0000_0000) % 0x100) as u8)
}

pub fn read_u16_le(s: &[u8], off: usize) -> (r: u16)
    requires
        off + 2 <= s@.len(),
    ensures
        r == le16(s@, off as int),
{
    let b0 = s[off];
    let b1 = s[off + 1];
    b0 as u16 + 0x100 * (b1 as u16)
}

pub fn read_u32_le(s: &[u8], off: usize) -> (r: u32)
    requires
        off + 4 <= s@.len(),
    ensures
        r == le32(s@, off as int),
{
    let _len = s.len();
    let lo = read_u16_le(s, off);
    let hi = read_u16_le(s, off + 2);
    lo as u32 + 0x1_0000 * (hi as u32)
}

pub fn read_u64_le(s: &[u8], off: usize) -> (r: u64)
    requires
        off + 8 <= s@.len(),
    ensures
        r == le64(s@, off as int),
{
    let _len = s.len();
    let lo = read_u32_le(s, off);
    let hi = read_u32_le(s, off + 4);
    lo as u64 + 0x1_0000_0000 * (hi as u64)
}

/// Whether two strings consist of the same bytes.
pub fn str_bytes_eq(a: &str, b: &str) -> (r: bool)
    ensures
        r == (a.spec_bytes() == b.spec_bytes()),
{
    let ab = a.as_bytes();
    let bb = b.as_bytes();
    if ab.len() != bb.len() {
        return false;
    }
    let n = ab.len();
    let mut i: usize = 0;
    while i < n
        invariant
            i <= n,
            n == ab@.len(),
            n == bb@.len(),
            ab@ == a.spec_bytes(),
            bb@ == b.spec_bytes(),
            forall|j: int| 0 <= j < i ==> ab@[j] == bb@[j],
        decreases n - i,
    {
        if ab[i] != bb[i] {
            return false;
        }
        i += 1;
    }
    proof {
        assert(a.spec_bytes() =~= b.spec_bytes());
    }
    true
}

pub fn write_u64_le(mem: &mut Vec<u8>, off: usize, v: u64)
    requires
        off + 8 <= old(mem)@.len(),
    ensures
        final(mem)@ == store_le64(old(mem)@, off as int, v as int),
        final(mem)@.len() == old(mem)@.len(),
{
    let _len = mem.len();
    mem[off] = (v % 0x100) as u8;
    mem[off + 1] = ((v / 0x100) % 0x100) as u8;
    mem[off + 2] = ((v / 0x1_0000) % 0x100) as u8;
    mem[off + 3] = ((v / 0x100_0000) % 0x100) as u8;
    mem[off + 4] = ((v / 0x1_0000_0000) % 0x100) as u8;
    mem[off + 5] = ((v / 0x100_0000_0000) % 0x100) as u8;
    mem[off + 6] = ((v / 0x1_0000_0000_0000) % 0x100) as u8;
    mem[off + 7] = ((v / 0x100_0000_0000_0000) % 0x100) as u8;
}

} // verus!
