//! The classic 512-byte boot-sector partition table: 446 bytes of bootstrap
//! code, four 16-byte partition entries, and the two-byte `0xAA55` signature
//! at offset 510.

use vstd::prelude::*;

use crate::block::{BlockDevice, BlockError, BlockResult};
use crate::bytes::{le16, le32, read_u16_le, read_u32_le};

verus! {

/// One 16-byte partition entry.
#[derive(Debug, Clone, Copy)]
pub struct MbrPartition {
    pub status: u8,
    pub chs_start: [u8; 3],
    pub type_code: u8,
    pub chs_end: [u8; 3],
    pub lba_start: u32,
    pub sector_count: u32,
}

/// A decoded boot sector.
#[derive(Debug, Clone)]
pub struct Mbr {
    pub bootstrap: Vec<u8>,
    pub partitions: [MbrPartition; 4],
    pub signature: u16,
}

/// `p` holds the fields of partition entry `e` as encoded in the boot
/// sector `s`: the entry starts at byte `446 + 16*e`, with little-endian
/// `lba_start` and `sector_count`.
pub open spec fn spec_partition_matches(p: MbrPartition, s: Seq<u8>, e: int) -> bool {
    let off = 446 + 16 * e;
    &&& p.status == s[off]
    &&& p.chs_start@ == s.subrange(off + 1, off + 4)
    &&& p.type_code == s[off + 4]
    &&& p.chs_end@ == s.subrange(off + 5, off + 8)
    &&& p.lba_start == le32(s, off + 8)
    &&& p.sector_count == le32(s, off + 12)
}

fn parse_partition(buffer: &[u8], e: usize) -> (p: MbrPartition)
    requires
        buffer@.len() == 512,
        e < 4,
    ensures
        spec_partition_matches(p, buffer@, e as int),
{
    let off = 446 + 16 * e;
    let p = MbrPartition {
        status: buffer[off],
        chs_start: [buffer[off + 1], buffer[off + 2], buffer[off + 3]],
        type_code: buffer[off + 4],
        chs_end: [buffer[off + 5], buffer[off + 6], buffer[off + 7]],
        lba_start: read_u32_le(buffer, off + 8),
        sector_count: read_u32_le(buffer, off + 12),
    };
    proof {
        assert(p.chs_start@ =~= buffer@.subrange(off + 1, off + 4));
        assert(p.chs_end@ =~= buffer@.subrange(off + 5, off + 8));
    }
    p
}

/// Decodes a 512-byte boot sector. Succeeds exactly when the buffer is 512
/// bytes long and carries the `0xAA55` signature at offset 510; any other
/// buffer is rejected as an invalid parameter.
pub fn parse_mbr(buffer: &[u8]) -> (r: BlockResult<Mbr>)
    ensures
        match r {
            Ok(m) => buffer@.len() == 512 && le16(buffer@, 510) == 0xAA55 && m.signature == 0xAA55
                && m.bootstrap@ == buffer@.subrange(0, 446) && forall|e: int|
                0 <= e < 4 ==> spec_partition_matches(#[trigger] m.partitions@[e], buffer@, e),
            Err(err) => err == BlockError::InvalidParameter && !(buffer@.len() == 512 && le16(
                buffer@,
                510,
            ) == 0xAA55),
        },
{
    if buffer.len() != 512 {
        return Err(BlockError::InvalidParameter);
    }
    let signature = read_u16_le(buffer, 510);
    if signature != 0xAA55 {
        return Err(BlockError::InvalidParameter);
    }

    let mut bootstrap: Vec<u8> = Vec::new();
    let mut k: usize = 0;
    while k < 446
        invariant
            k <= 446,
            buffer@.len() == 512,
            bootstrap@ == buffer@.subrange(0, k as int),
        decreases 446 - k,
    {
        bootstrap.push(buffer[k]);
        proof {
            assert(bootstrap@ =~= buffer@.subrange(0, k as int + 1));
        }
        k += 1;
    }

    let partitions = [
        parse_partition(buffer, 0),
        parse_partition(buffer, 1),
        parse_partition(buffer, 2),
        parse_partition(buffer, 3),
    ];
    Ok(Mbr { bootstrap, partitions, signature })
}

/// A partition entry describes a real partition iff its type code is
/// nonzero and it spans at least one sector.
pub fn is_valid_partition(partition: &MbrPartition) -> (r: bool)
    ensures
        r == (partition.type_code != 0 && partition.sector_count > 0),
{
    partition.type_code != 0 && partition.sector_count > 0
}

/// Reads logical block 0 of `device` and decodes it as a boot sector;
/// whatever the device returned must carry the `0xAA55` signature.
pub fn read_mbr<D: BlockDevice>(device: &mut D) -> (r: BlockResult<Mbr>)
    ensures
        r matches Ok(m) ==> m.signature == 0xAA55,
{
    let mut mbr_data: Vec<u8> = Vec::new();
    let mut k: usize = 0;
    while k < 512
        invariant
            k <= 512,
            mbr_data@.len() == k,
        decreases 512 - k,
    {
        mbr_data.push(0u8);
        k += 1;
    }
    device.read_blocks(0, &mut mbr_data)?;
    parse_mbr(mbr_data.as_slice())
}

} // verus!
