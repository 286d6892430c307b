use std::cell::Cell;
use std::rc::Rc;

use plum::block::{BlockDevice, BlockError};
use plum::bus::RegisterBus;
use plum::sdhci::{
    card_type_from_ocr, ocr_negotiation_complete, rca_from_response, transfer_address,
    transfer_command, transfer_mode_value, CardType, SdhciController, SdhciError,
    CMD_READ_MULTIPLE_BLOCK, CMD_READ_SINGLE_BLOCK, CMD_WRITE_MULTIPLE_BLOCK,
    CMD_WRITE_SINGLE_BLOCK,
};

/// A scripted SDHCI host: status registers always report ready, the
/// response registers answer according to the last command issued, and
/// every access is counted.
struct ScriptedBus {
    accesses: Rc<Cell<usize>>,
    last_cmd: u16,
    csd: [u32; 4],
}

impl ScriptedBus {
    fn new(csd: [u32; 4]) -> (Self, Rc<Cell<usize>>) {
        let counter = Rc::new(Cell::new(0));
        (ScriptedBus { accesses: counter.clone(), last_cmd: 0, csd }, counter)
    }

    fn touch(&self) {
        self.accesses.set(self.accesses.get() + 1);
    }
}

impl RegisterBus for ScriptedBus {
    fn read8(&mut self, _reg: usize) -> u8 {
        self.touch();
        0
    }

    fn read16(&mut self, reg: usize) -> u16 {
        self.touch();
        match reg {
            0x2C => 0x2, // clock stable
            _ => 0,
        }
    }

    fn read32(&mut self, reg: usize) -> u32 {
        self.touch();
        match reg {
            0x24 => 1 << 16,            // card present, no inhibits
            0x30 => 0x3,                // response ready and data end, no errors
            0x10 => match self.last_cmd {
                41 => 0xC000_0000,      // ACMD41: busy done, high capacity
                3 => 0x0001_0000,       // relative address 1
                9 => self.csd[0],
                _ => 0x1AA,
            },
            0x14 => self.csd[1],
            0x18 => self.csd[2],
            0x1C => self.csd[3],
            _ => 0,
        }
    }

    fn write8(&mut self, _reg: usize, _value: u8) {
        self.touch();
    }

    fn write16(&mut self, reg: usize, value: u16) {
        self.touch();
        if reg == 0x0E {
            self.last_cmd = value >> 8;
        }
    }

    fn write32(&mut self, _reg: usize, _value: u32) {
        self.touch();
    }

    fn dma_bind(&mut self, _buffer: &mut Vec<u8>) -> Option<u32> {
        self.touch();
        Some(0x1000)
    }
}

/// CSD words for structure version 1 with the given C_SIZE.
fn csd_v1(c_size: u32) -> [u32; 4] {
    [0x4000_0000, (c_size >> 16) & 0x3F, (c_size & 0xFFFF) << 16, 0]
}

#[test]
fn csd_version0_small_card() {
    // C_SIZE=0, C_SIZE_MULT=0, READ_BL_LEN=9: 1 * 4 * 512 bytes = 4 blocks.
    let (bus, _) = ScriptedBus::new([0, 0, 0, 0]);
    let mut card = SdhciController::new(bus);
    assert_eq!(card.parse_csd([0, 0x90000, 0, 0]), Ok(()));
    assert_eq!(card.block_count(), 4);
    assert_eq!(card.card_type(), CardType::SDSC);
}

#[test]
fn csd_version1_high_capacity() {
    // C_SIZE=0: block count (0+1)*1024 = 1024, classified SDHC.
    let (bus, _) = ScriptedBus::new([0, 0, 0, 0]);
    let mut card = SdhciController::new(bus);
    assert_eq!(card.parse_csd([0x4000_0000, 0, 0, 0]), Ok(()));
    assert_eq!(card.block_count(), 1024);
    assert_eq!(card.card_type(), CardType::SDHC);
}

#[test]
fn csd_version1_extended_capacity() {
    // The largest C_SIZE pushes the count past 0x80000000: SDXC.
    let (bus, _) = ScriptedBus::new([0, 0, 0, 0]);
    let mut card = SdhciController::new(bus);
    assert_eq!(card.parse_csd([0x4000_0000, 0x3F, 0xFFFF_0000, 0]), Ok(()));
    assert_eq!(card.block_count(), 0x40_0000 * 1024);
    assert_eq!(card.card_type(), CardType::SDXC);
}

#[test]
fn csd_unknown_structure_rejected() {
    let (bus, _) = ScriptedBus::new([0, 0, 0, 0]);
    let mut card = SdhciController::new(bus);
    let before_count = card.block_count();
    assert!(card.parse_csd([0x8000_0000, 0, 0, 0]).is_err());
    assert_eq!(card.block_count(), before_count);
    assert_eq!(card.card_type(), CardType::NoCard);
}

#[test]
fn init_runs_the_identification_sequence() {
    let (bus, _) = ScriptedBus::new(csd_v1(0));
    let mut card = SdhciController::new(bus);
    assert_eq!(card.init(), Ok(()));
    assert_eq!(card.block_count(), 1024);
    assert_eq!(card.card_type(), CardType::SDHC);
}

#[test]
fn write_of_600_bytes_fails_before_any_command() {
    let (bus, counter) = ScriptedBus::new(csd_v1(0));
    let mut card = SdhciController::new(bus);
    let buffer = vec![0u8; 600];
    let r = card.write_blocks(0, &buffer);
    assert_eq!(r, Err(BlockError::InvalidParameter));
    assert_eq!(counter.get(), 0, "no register was touched");
}

#[test]
fn read_of_unround_buffer_is_an_io_error() {
    let (bus, _) = ScriptedBus::new(csd_v1(0));
    let mut card = SdhciController::new(bus);
    let mut buffer = vec![0u8; 600];
    assert_eq!(card.read_blocks(0, &mut buffer), Err(BlockError::IoError));
}

#[test]
fn whole_block_transfers_succeed_on_a_ready_host() {
    let (bus, counter) = ScriptedBus::new(csd_v1(0));
    let mut card = SdhciController::new(bus);
    assert_eq!(card.init(), Ok(()));
    let mut buffer = vec![0u8; 1024];
    assert_eq!(card.read_blocks(4, &mut buffer), Ok(()));
    let buffer = vec![1u8; 512];
    assert_eq!(card.write_blocks(4, &buffer), Ok(()));
    assert!(counter.get() > 0);
}

#[test]
fn empty_write_is_a_no_op_success() {
    let (bus, counter) = ScriptedBus::new(csd_v1(0));
    let mut card = SdhciController::new(bus);
    let buffer: Vec<u8> = Vec::new();
    assert_eq!(card.write_blocks(0, &buffer), Ok(()));
    assert_eq!(counter.get(), 0);
}

/// A host whose interrupt status carries both the awaited bit and an error
/// bit, or reports no card, or refuses DMA binding.
struct FaultyBus {
    int_status: u32,
    present_state: u32,
    dma: Option<u32>,
}

impl RegisterBus for FaultyBus {
    fn read8(&mut self, _reg: usize) -> u8 {
        0
    }

    fn read16(&mut self, _reg: usize) -> u16 {
        0x2
    }

    fn read32(&mut self, reg: usize) -> u32 {
        match reg {
            0x24 => self.present_state,
            0x30 => self.int_status,
            _ => 0,
        }
    }

    fn write8(&mut self, _reg: usize, _value: u8) {}

    fn write16(&mut self, _reg: usize, _value: u16) {}

    fn write32(&mut self, _reg: usize, _value: u32) {}

    fn dma_bind(&mut self, _buffer: &mut Vec<u8>) -> Option<u32> {
        self.dma
    }
}

#[test]
fn error_interrupts_take_precedence_over_completion() {
    // Data end (bit 1) is set, but so is the data-CRC-error bit: the
    // transfer must fail, not succeed.
    let bus = FaultyBus { int_status: 0x3 | (1 << 8), present_state: 1 << 16, dma: Some(0) };
    let mut card = SdhciController::new(bus);
    let mut buffer = vec![0u8; 512];
    assert_eq!(card.read_blocks(0, &mut buffer), Err(BlockError::IoError));
}

#[test]
fn absent_card_fails_initialization_with_state_untouched() {
    let bus = FaultyBus { int_status: 0x3, present_state: 0, dma: Some(0) };
    let mut card = SdhciController::new(bus);
    assert_eq!(card.init(), Err(SdhciError::NoCardPresent));
    assert_eq!(card.card_type(), CardType::NoCard);
    assert_eq!(card.block_count(), 0);
}

#[test]
fn voltage_negotiation_ends_on_the_power_up_bit() {
    assert!(ocr_negotiation_complete(0x8000_0000));
    assert!(ocr_negotiation_complete(0xC030_0000));
    assert!(!ocr_negotiation_complete(0x4030_0000));
    assert!(!ocr_negotiation_complete(0));
}

#[test]
fn capacity_status_bit_upgrades_the_card_class() {
    assert_eq!(card_type_from_ocr(0xC000_0000, CardType::NoCard), CardType::SDHC);
    assert_eq!(card_type_from_ocr(0x8000_0000, CardType::NoCard), CardType::NoCard);
    assert_eq!(card_type_from_ocr(0x8000_0000, CardType::SDSC), CardType::SDSC);
}

#[test]
fn relative_card_address_comes_from_the_high_half() {
    assert_eq!(rca_from_response(0x0001_0000), Ok(1));
    assert_eq!(rca_from_response(0xABCD_1234), Ok(0xABCD));
    assert_eq!(rca_from_response(0x0000_FFFF), Err(SdhciError::InvalidRca));
}

#[test]
fn transfer_addressing_depends_on_the_card_class() {
    assert_eq!(transfer_address(CardType::SDSC, 7), 7 * 512);
    assert_eq!(transfer_address(CardType::SDHC, 7), 7);
    assert_eq!(transfer_address(CardType::SDXC, 7), 7);
    assert_eq!(transfer_address(CardType::SDSC, u64::MAX), u64::MAX.wrapping_mul(512));
}

#[test]
fn transfer_command_picks_the_multi_variant_past_one_block() {
    assert_eq!(transfer_command(false, 1), CMD_READ_SINGLE_BLOCK);
    assert_eq!(transfer_command(false, 2), CMD_READ_MULTIPLE_BLOCK);
    assert_eq!(transfer_command(true, 1), CMD_WRITE_SINGLE_BLOCK);
    assert_eq!(transfer_command(true, 2), CMD_WRITE_MULTIPLE_BLOCK);
    assert_eq!(transfer_mode_value(1), 0x0002);
    assert_eq!(transfer_mode_value(2), 0x0022);
}

#[test]
fn unaligned_dma_buffer_is_rejected() {
    let bus = FaultyBus { int_status: 0x3, present_state: 1 << 16, dma: None };
    let mut card = SdhciController::new(bus);
    let mut buffer = vec![0u8; 512];
    assert_eq!(card.read_blocks(0, &mut buffer), Err(BlockError::IoError));
}

#[test]
fn transfer_larger_than_the_block_count_register_is_rejected() {
    let (bus, counter) = ScriptedBus::new(csd_v1(0));
    let mut card = SdhciController::new(bus);
    // 0x10000 blocks: one more than the 16-bit block-count register holds.
    let mut buffer = vec![0u8; 512 * 0x10000];
    assert_eq!(card.transfer_blocks(0, &mut buffer, false), Err(SdhciError::InvalidBufferSize));
    assert_eq!(counter.get(), 0);
}

#[test]
fn unknown_csd_error_is_reported_exactly() {
    let (bus, _) = ScriptedBus::new([0, 0, 0, 0]);
    let mut card = SdhciController::new(bus);
    assert_eq!(card.parse_csd([0xC000_0000, 0, 0, 0]), Err(SdhciError::UnknownCsdVersion));
}

#[test]
fn block_size_is_fixed_at_512() {
    let (bus, _) = ScriptedBus::new(csd_v1(0));
    let card = SdhciController::new(bus);
    assert_eq!(card.block_size(), 512);
    assert_eq!(card.block_count(), 0);
}
