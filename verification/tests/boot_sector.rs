use plum::block::{BlockDevice, BlockError, BlockResult};
use plum::partition::{is_valid_partition, parse_mbr, read_mbr, MbrPartition};

/// A boot sector with the right trailing signature and one partition entry.
fn sector_with_signature(sig_lo: u8, sig_hi: u8) -> Vec<u8> {
    let mut buf = vec![0u8; 512];
    buf[510] = sig_lo;
    buf[511] = sig_hi;
    // First partition entry: bootable, type 0x83, 2048 sectors from LBA 1.
    let entry = 446;
    buf[entry] = 0x80;
    buf[entry + 4] = 0x83;
    buf[entry + 8..entry + 12].copy_from_slice(&1u32.to_le_bytes());
    buf[entry + 12..entry + 16].copy_from_slice(&2048u32.to_le_bytes());
    buf
}

#[test]
fn signed_sector_parses() {
    let buf = sector_with_signature(0x55, 0xAA);
    let mbr = parse_mbr(&buf).expect("valid boot sector");
    assert_eq!(mbr.signature, 0xAA55);
    assert_eq!(mbr.bootstrap.len(), 446);
    assert_eq!(mbr.partitions[0].status, 0x80);
    assert_eq!(mbr.partitions[0].type_code, 0x83);
    assert_eq!(mbr.partitions[0].lba_start, 1);
    assert_eq!(mbr.partitions[0].sector_count, 2048);
    assert_eq!(mbr.partitions[1].type_code, 0);
}

#[test]
fn wrong_trailing_pair_is_rejected() {
    for (lo, hi) in [(0xAA, 0x55), (0x55, 0xAB), (0x00, 0x00), (0xFF, 0xFF)] {
        let buf = sector_with_signature(lo, hi);
        assert_eq!(parse_mbr(&buf).unwrap_err(), BlockError::InvalidParameter, "pair {:02x}{:02x}", lo, hi);
    }
}

#[test]
fn wrong_length_is_rejected() {
    assert_eq!(parse_mbr(&[0u8; 511]).unwrap_err(), BlockError::InvalidParameter);
    assert_eq!(parse_mbr(&[0u8; 513]).unwrap_err(), BlockError::InvalidParameter);
    assert_eq!(parse_mbr(&[]).unwrap_err(), BlockError::InvalidParameter);
}

#[test]
fn partition_validity_needs_type_and_sectors() {
    let valid = MbrPartition {
        status: 0,
        chs_start: [0; 3],
        type_code: 0x83,
        chs_end: [0; 3],
        lba_start: 1,
        sector_count: 10,
    };
    assert!(is_valid_partition(&valid));
    let no_type = MbrPartition { type_code: 0, ..valid };
    assert!(!is_valid_partition(&no_type));
    let no_sectors = MbrPartition { sector_count: 0, ..valid };
    assert!(!is_valid_partition(&no_sectors));
}

/// A block device that serves one fixed 512-byte sector.
struct OneSectorDevice {
    sector: Vec<u8>,
}

impl BlockDevice for OneSectorDevice {
    fn read_blocks(&mut self, _lba: u64, buffer: &mut Vec<u8>) -> BlockResult<()> {
        buffer.clear();
        buffer.extend_from_slice(&self.sector);
        Ok(())
    }

    fn write_blocks(&mut self, _lba: u64, _buffer: &Vec<u8>) -> BlockResult<()> {
        Err(BlockError::NotSupported)
    }

    fn block_size(&self) -> usize {
        512
    }

    fn block_count(&self) -> u64 {
        1
    }
}

#[test]
fn read_mbr_decodes_what_the_device_serves() {
    let mut device = OneSectorDevice { sector: sector_with_signature(0x55, 0xAA) };
    let mbr = read_mbr(&mut device).expect("signed sector");
    assert_eq!(mbr.signature, 0xAA55);
    assert!(is_valid_partition(&mbr.partitions[0]));

    let mut bad = OneSectorDevice { sector: sector_with_signature(0x00, 0x00) };
    assert_eq!(read_mbr(&mut bad).unwrap_err(), BlockError::InvalidParameter);
}
