//! SDHCI (SD card) controller driver: card detection, the identification
//! command sequence, CSD decoding and capacity computation, and 512-byte
//! block transfer through the controller's DMA engine.
//!
//! Protocol decisions (bit tests, retry bounds, CSD arithmetic, card-type
//! dependent addressing) are verified; what the hardware answers arrives
//! through the contract-free [`RegisterBus`] window, so every guarantee here
//! holds whatever the card or controller does.

use vstd::prelude::*;

use crate::block::{BlockDevice, BlockError, BlockResult};
use crate::bus::RegisterBus;

verus! {

const SDHCI_DMA_ADDRESS: usize = 0x00;

const SDHCI_BLOCK_SIZE: usize = 0x04;

const SDHCI_BLOCK_COUNT: usize = 0x06;

const SDHCI_ARGUMENT: usize = 0x08;

const SDHCI_TRANSFER_MODE: usize = 0x0C;

const SDHCI_COMMAND: usize = 0x0E;

const SDHCI_RESPONSE_0: usize = 0x10;

const SDHCI_RESPONSE_1: usize = 0x14;

const SDHCI_RESPONSE_2: usize = 0x18;

const SDHCI_RESPONSE_3: usize = 0x1C;

const SDHCI_PRESENT_STATE: usize = 0x24;

const SDHCI_HOST_CONTROL_1: usize = 0x28;

const SDHCI_CLOCK_CONTROL: usize = 0x2C;

const SDHCI_SOFTWARE_RESET: usize = 0x2F;

const SDHCI_INT_STATUS: usize = 0x30;

const SDHCI_INT_ENABLE: usize = 0x34;

const CMD_GO_IDLE_STATE: u16 = 0;

const CMD_SEND_IF_COND: u16 = 8;

const CMD_APP_CMD: u16 = 55;

const ACMD_SD_SEND_OP_COND: u16 = 41;

const CMD_ALL_SEND_CID: u16 = 2;

const CMD_SEND_RELATIVE_ADDR: u16 = 3;

const CMD_SELECT_CARD: u16 = 7;

const CMD_SEND_CSD: u16 = 9;

const CMD_SET_BLOCKLEN: u16 = 16;

pub const CMD_READ_SINGLE_BLOCK: u16 = 17;

pub const CMD_READ_MULTIPLE_BLOCK: u16 = 18;

pub const CMD_WRITE_SINGLE_BLOCK: u16 = 24;

pub const CMD_WRITE_MULTIPLE_BLOCK: u16 = 25;

const CMD_STOP_TRANSMISSION: u16 = 12;

const SDHCI_CMD_RESP_NONE: u16 = 0x0000;

const SDHCI_CMD_RESP_R1: u16 = 0x0010;

const SDHCI_CMD_RESP_R2: u16 = 0x0018;

const SDHCI_CMD_RESP_R3: u16 = 0x0010;

const SDHCI_CMD_RESP_R6: u16 = 0x0010;

const SDHCI_CMD_CRC_EN: u16 = 0x0008;

const SDHCI_CMD_INDEX_EN: u16 = 0x0004;

const SDHCI_CMD_DATA: u16 = 0x0020;

const SDHCI_CMD_INHIBIT: u32 = 1 << 0;

const SDHCI_DATA_INHIBIT: u32 = 1 << 1;

const SDHCI_CARD_PRESENT: u32 = 1 << 16;

const SDHCI_INT_RESPONSE: u32 = 1 << 0;

const SDHCI_INT_DATA_END: u32 = 1 << 1;

const SDHCI_INT_DATA_CRC_ERR: u32 = 1 << 8;

const SDHCI_INT_DATA_TIMEOUT: u32 = 1 << 9;

const SDHCI_INT_ERROR: u32 = 1 << 15;

/// The error-interrupt bits other than data CRC and data timeout.
const SDHCI_INT_OTHER_ERROR: u32 = SDHCI_INT_ERROR & !(SDHCI_INT_DATA_CRC_ERR
    | SDHCI_INT_DATA_TIMEOUT);

const SDHCI_CTRL_4BITBUS: u8 = 0x02;

const SDHCI_CLOCK_INT_EN: u16 = 1 << 0;

const SDHCI_CLOCK_INT_STABLE: u16 = 1 << 1;

const SDHCI_CLOCK_CARD_EN: u16 = 1 << 2;

const SDHCI_RESET_ALL: u8 = 0x01;

const BLOCK_SIZE: u16 = 512;

/// Bound on every busy-poll of a controller status bit.
const MAX_RETRIES: usize = 1_000_000;

/// The protocol failures of the driver.
#[derive(Debug, Clone, Copy, PartialEq, Eq, Structural)]
pub enum SdhciError {
    NoCardPresent,
    /// The software-reset bit never cleared. The reset wait is bounded at
    /// `MAX_RETRIES` here, where other host controllers leave it unbounded.
    ResetTimeout,
    CommandInhibitTimeout,
    DataInhibitTimeout,
    DataCrcError,
    DataTimeout,
    HardwareError,
    OperationTimeout,
    CardInitTimeout,
    InvalidRca,
    UnknownCsdVersion,
    InvalidBufferSize,
    MisalignedBuffer,
}

/// The card capacity class detected during initialization.
#[derive(Debug, Clone, Copy, PartialEq, Eq, Structural)]
pub enum CardType {
    NoCard,
    SDSC,
    SDHC,
    SDXC,
}

/// Decodes a raw CSD register (its three significant 32-bit words) into the
/// card's 512-byte block count and capacity class, or nothing when the CSD
/// structure version is unrecognized.
///
/// Structure version 0 is byte-addressed: capacity is
/// `(C_SIZE+1) * 2^(C_SIZE_MULT+2) * 2^READ_BL_LEN` bytes and the card is
/// SDSC. Version 1 is block-addressed: the block count is `(C_SIZE+1)*1024`,
/// SDHC up to `0x80000000` blocks and SDXC beyond.
pub open spec fn spec_csd_decode(c0: u32, c1: u32, c2: u32) -> Option<(int, CardType)> {
    let structure = (c0 >> 30) & 0x3;
    if structure == 0 {
        let c_size = ((c1 & 0x3FF) << 2) | ((c2 >> 30) & 0x3);
        let c_size_mult = (c2 >> 15) & 0x7;
        let read_bl_len = (c1 >> 16) & 0xF;
        let block_len = (1u64 << (read_bl_len as u64)) as int;
        let mult = (1u64 << ((c_size_mult + 2) as u64)) as int;
        let capacity = (c_size + 1) * mult * block_len;
        Some((capacity / 512, CardType::SDSC))
    } else if structure == 1 {
        let c_size = ((((c1 & 0x3F) as u64) << 16) | ((c2 >> 16) as u64)) as int;
        let count = (c_size + 1) * 1024;
        Some((count, if count > 0x80000000 { CardType::SDXC } else { CardType::SDHC }))
    } else {
        None
    }
}

/// A transfer buffer must be a positive multiple of 512 bytes and small
/// enough for the controller's 16-bit block-count register.
pub open spec fn spec_valid_transfer_len(len: int) -> bool {
    len > 0 && len % 512 == 0 && len / 512 <= 0xFFFF
}

/// Whether an ACMD41 response ends the voltage negotiation: bit 31 is the
/// card's power-up-complete flag.
pub fn ocr_negotiation_complete(resp: u32) -> (r: bool)
    ensures
        r == (resp & 0x8000_0000u32 != 0),
{
    resp & 0x8000_0000 != 0
}

/// The card class an accepted OCR implies: bit 30 (the card-capacity-status
/// bit) marks a high-capacity card; without it the class stays as it was.
pub fn card_type_from_ocr(ocr: u32, current: CardType) -> (r: CardType)
    ensures
        r == (if ocr & 0x4000_0000u32 != 0 {
            CardType::SDHC
        } else {
            current
        }),
{
    if ocr & 0x4000_0000 != 0 {
        CardType::SDHC
    } else {
        current
    }
}

/// The relative card address carried in bits 16–31 of the
/// SEND_RELATIVE_ADDR response; the zero address is invalid.
pub fn rca_from_response(resp: u32) -> (r: Result<u32, SdhciError>)
    ensures
        (resp >> 16) & 0xFFFF == 0 ==> r == Err::<u32, SdhciError>(SdhciError::InvalidRca),
        (resp >> 16) & 0xFFFF != 0 ==> r == Ok::<u32, SdhciError>((resp >> 16) & 0xFFFF),
{
    let rca = (resp >> 16) & 0xFFFF;
    if rca == 0 {
        Err(SdhciError::InvalidRca)
    } else {
        Ok(rca)
    }
}

/// The address programmed into the controller for a transfer starting at
/// `lba`: SDSC cards are byte-addressed (`lba * 512`, wrapping), all
/// higher-capacity cards block-addressed.
pub fn transfer_address(card_type: CardType, lba: u64) -> (r: u64)
    ensures
        r == (if card_type == CardType::SDSC {
            lba.wrapping_mul(512)
        } else {
            lba
        }),
{
    match card_type {
        CardType::SDSC => lba.wrapping_mul(512),
        _ => lba,
    }
}

/// The command index for a transfer: single or multiple read (17/18) and
/// single or multiple write (24/25), the multiple variant exactly when more
/// than one block moves.
pub fn transfer_command(write: bool, blocks: u16) -> (r: u16)
    ensures
        write && blocks > 1 ==> r == CMD_WRITE_MULTIPLE_BLOCK,
        write && blocks <= 1 ==> r == CMD_WRITE_SINGLE_BLOCK,
        !write && blocks > 1 ==> r == CMD_READ_MULTIPLE_BLOCK,
        !write && blocks <= 1 ==> r == CMD_READ_SINGLE_BLOCK,
{
    if write {
        if blocks > 1 {
            CMD_WRITE_MULTIPLE_BLOCK
        } else {
            CMD_WRITE_SINGLE_BLOCK
        }
    } else {
        if blocks > 1 {
            CMD_READ_MULTIPLE_BLOCK
        } else {
            CMD_READ_SINGLE_BLOCK
        }
    }
}

/// The transfer-mode register value: DMA enable, with the multi-block and
/// block-count-enable bits exactly when more than one block moves.
pub fn transfer_mode_value(blocks: u16) -> (r: u16)
    ensures
        r == (0x0002u16 | (if blocks > 1 {
            0x0020u16
        } else {
            0x0000u16
        })),
{
    0x0002 | (if blocks > 1 {
        0x0020u16
    } else {
        0x0000u16
    })
}

pub struct SdhciController<R: RegisterBus> {
    bus: R,
    rca: u32,
    card_type: CardType,
    block_count: u64,
}

impl<R: RegisterBus> SdhciController<R> {
    /// The relative card address assigned during identification.
    pub closed spec fn spec_rca(&self) -> u32 {
        self.rca
    }

    /// The capacity class detected by CSD decoding.
    pub closed spec fn spec_card_type(&self) -> CardType {
        self.card_type
    }

    /// The 512-byte block count computed from the CSD.
    pub closed spec fn spec_block_count(&self) -> u64 {
        self.block_count
    }

    /// The register window the driver owns.
    pub closed spec fn spec_bus(&self) -> R {
        self.bus
    }

    /// The CSD-derived block count never exceeds 2^32: version-0 capacities
    /// stay below 2^27 blocks and version-1 counts below or at 2^32.
    pub open spec fn wf(self) -> bool {
        self.spec_block_count() <= 0x1_0000_0000u64
    }

    /// The card-session state (everything but the register window) is the
    /// same in both controllers.
    pub open spec fn card_state_eq(self, other: Self) -> bool {
        &&& self.spec_rca() == other.spec_rca()
        &&& self.spec_card_type() == other.spec_card_type()
        &&& self.spec_block_count() == other.spec_block_count()
    }

    pub fn new(bus: R) -> (r: Self)
        ensures
            r.spec_rca() == 0,
            r.spec_card_type() == CardType::NoCard,
            r.spec_block_count() == 0,
            r.wf(),
    {
        SdhciController { bus, rca: 0, card_type: CardType::NoCard, block_count: 0 }
    }

    /// The capacity class detected by the last initialization.
    pub fn card_type(&self) -> (r: CardType)
        ensures
            r == self.spec_card_type(),
    {
        self.card_type
    }

    /// Polls the present-state register until the command-inhibit bit
    /// clears, at most `MAX_RETRIES` times.
    #[verifier::loop_isolation(false)]
    fn wait_for_cmd(&mut self) -> (r: Result<(), SdhciError>)
        ensures
            final(self).card_state_eq(*old(self)),
            r matches Err(e) ==> e == SdhciError::CommandInhibitTimeout,
    {
        let mut attempt: usize = 0;
        while attempt < MAX_RETRIES
            invariant
                self.card_state_eq(*old(self)),
            decreases MAX_RETRIES - attempt,
        {
            if self.bus.read32(SDHCI_PRESENT_STATE) & SDHCI_CMD_INHIBIT == 0 {
                return Ok(());
            }
            attempt += 1;
        }
        Err(SdhciError::CommandInhibitTimeout)
    }

    /// Polls the present-state register until the data-inhibit bit clears,
    /// at most `MAX_RETRIES` times.
    #[verifier::loop_isolation(false)]
    fn wait_for_data(&mut self) -> (r: Result<(), SdhciError>)
        ensures
            final(self).card_state_eq(*old(self)),
            r matches Err(e) ==> e == SdhciError::DataInhibitTimeout,
    {
        let mut attempt: usize = 0;
        while attempt < MAX_RETRIES
            invariant
                self.card_state_eq(*old(self)),
            decreases MAX_RETRIES - attempt,
        {
            if self.bus.read32(SDHCI_PRESENT_STATE) & SDHCI_DATA_INHIBIT == 0 {
                return Ok(());
            }
            attempt += 1;
        }
        Err(SdhciError::DataInhibitTimeout)
    }

    /// Polls the interrupt-status register for any bit of `mask`, at most
    /// `MAX_RETRIES` times, clearing the status on success. A data CRC
    /// error, data timeout or any other hardware-error bit observed during
    /// the wait aborts immediately and takes precedence over `mask`.
    #[verifier::loop_isolation(false)]
    fn wait_for_interrupt(&mut self, mask: u32) -> (r: Result<u32, SdhciError>)
        ensures
            final(self).card_state_eq(*old(self)),
            r matches Ok(v) ==> v & mask != 0 && v & SDHCI_INT_DATA_CRC_ERR == 0 && v
                & SDHCI_INT_DATA_TIMEOUT == 0 && v & SDHCI_INT_OTHER_ERROR == 0,
            r matches Err(e) ==> (e == SdhciError::DataCrcError || e == SdhciError::DataTimeout
                || e == SdhciError::HardwareError || e == SdhciError::OperationTimeout),
    {
        let mut attempt: usize = 0;
        while attempt < MAX_RETRIES
            invariant
                self.card_state_eq(*old(self)),
            decreases MAX_RETRIES - attempt,
        {
            let int_status = self.bus.read32(SDHCI_INT_STATUS);
            if int_status & SDHCI_INT_DATA_CRC_ERR != 0 {
                return Err(SdhciError::DataCrcError);
            }
            if int_status & SDHCI_INT_DATA_TIMEOUT != 0 {
                return Err(SdhciError::DataTimeout);
            }
            if int_status & SDHCI_INT_OTHER_ERROR != 0 {
                return Err(SdhciError::HardwareError);
            }
            if int_status & mask != 0 {
                self.bus.write32(SDHCI_INT_STATUS, int_status);
                return Ok(int_status);
            }
            attempt += 1;
        }
        Err(SdhciError::OperationTimeout)
    }

    /// Asserts software reset and polls until the reset bit self-clears.
    /// The wait is bounded at `MAX_RETRIES` like every other wait of this
    /// driver, converting a stuck reset into an error.
    #[verifier::loop_isolation(false)]
    fn reset(&mut self) -> (r: Result<(), SdhciError>)
        ensures
            final(self).card_state_eq(*old(self)),
            r matches Err(e) ==> e == SdhciError::ResetTimeout,
    {
        self.bus.write8(SDHCI_SOFTWARE_RESET, SDHCI_RESET_ALL);
        let mut attempt: usize = 0;
        while attempt < MAX_RETRIES
            invariant
                self.card_state_eq(*old(self)),
            decreases MAX_RETRIES - attempt,
        {
            if self.bus.read8(SDHCI_SOFTWARE_RESET) & SDHCI_RESET_ALL == 0 {
                return Ok(());
            }
            attempt += 1;
        }
        Err(SdhciError::ResetTimeout)
    }

    /// Enables the internal clock, waits (bounded) for the clock-stable
    /// bit, then enables the card clock. A clock that never stabilizes is
    /// tolerated: the card clock is enabled regardless.
    fn init_clock(&mut self) -> (r: Result<(), SdhciError>)
        ensures
            final(self).card_state_eq(*old(self)),
            r is Ok,
    {
        self.bus.write16(SDHCI_CLOCK_CONTROL, SDHCI_CLOCK_INT_EN);
        let mut attempt: usize = 0;
        while attempt < MAX_RETRIES
            invariant_except_break
                self.card_state_eq(*old(self)),
            ensures
                self.card_state_eq(*old(self)),
            decreases MAX_RETRIES - attempt,
        {
            if self.bus.read16(SDHCI_CLOCK_CONTROL) & SDHCI_CLOCK_INT_STABLE != 0 {
                break;
            }
            attempt += 1;
        }
        let clk = self.bus.read16(SDHCI_CLOCK_CONTROL);
        self.bus.write16(SDHCI_CLOCK_CONTROL, clk | SDHCI_CLOCK_CARD_EN);
        Ok(())
    }

    /// Clears the clock-divisor bits of the clock-control register.
    fn set_high_speed(&mut self)
        ensures
            final(self).card_state_eq(*old(self)),
    {
        let clk = self.bus.read16(SDHCI_CLOCK_CONTROL);
        self.bus.write16(SDHCI_CLOCK_CONTROL, clk & !(0xFFu16 << 8));
    }

    /// Issues one command: waits for command-inhibit to clear, writes the
    /// argument and the command word, waits for the response-ready
    /// interrupt, and returns the first response register.
    fn send_command(&mut self, cmd: u16, arg: u32, flags: u16) -> (r: Result<u32, SdhciError>)
        ensures
            final(self).card_state_eq(*old(self)),
            r matches Err(e) ==> (e == SdhciError::CommandInhibitTimeout || e
                == SdhciError::DataCrcError || e == SdhciError::DataTimeout || e
                == SdhciError::HardwareError || e == SdhciError::OperationTimeout),
    {
        self.wait_for_cmd()?;
        self.bus.write32(SDHCI_ARGUMENT, arg);
        self.bus.write16(SDHCI_COMMAND, (cmd << 8) | flags);
        self.wait_for_interrupt(SDHCI_INT_RESPONSE)?;
        Ok(self.bus.read32(SDHCI_RESPONSE_0))
    }

    /// Tests the card-present bit of the present-state register.
    fn is_card_present(&mut self) -> (r: bool)
        ensures
            final(self).card_state_eq(*old(self)),
    {
        self.bus.read32(SDHCI_PRESENT_STATE) & SDHCI_CARD_PRESENT != 0
    }

    /// Decodes the raw CSD words and records the card's block count and
    /// capacity class; an unrecognized structure version changes nothing.
    pub fn parse_csd(&mut self, csd: [u32; 4]) -> (r: Result<(), SdhciError>)
        requires
            old(self).wf(),
        ensures
            final(self).spec_rca() == old(self).spec_rca(),
            final(self).spec_bus() == old(self).spec_bus(),
            final(self).wf(),
            match spec_csd_decode(csd@[0], csd@[1], csd@[2]) {
                Some((count, ct)) => r is Ok && final(self).spec_block_count() == count
                    && final(self).spec_card_type() == ct,
                None => r == Err::<(), SdhciError>(SdhciError::UnknownCsdVersion) && *final(self)
                    == *old(self),
            },
    {
        let c0 = csd[0];
        let c1 = csd[1];
        let c2 = csd[2];
        let csd_structure = (c0 >> 30) & 0x3;
        if csd_structure == 0 {
            let c_size = ((c1 & 0x3FF) << 2) | ((c2 >> 30) & 0x3);
            let c_size_mult = (c2 >> 15) & 0x7;
            let read_bl_len = (c1 >> 16) & 0xF;
            assert(((c1 & 0x3FF) << 2) | ((c2 >> 30) & 0x3) <= 0xFFF) by (bit_vector);
            assert((c2 >> 15) & 0x7 <= 7) by (bit_vector);
            assert((c1 >> 16) & 0xF <= 0xF) by (bit_vector);
            let block_len = 1u64 << (read_bl_len as u64);
            let mult = 1u64 << ((c_size_mult + 2) as u64);
            assert(block_len <= 0x8000) by (bit_vector)
                requires
                    block_len == 1u64 << (read_bl_len as u64),
                    read_bl_len <= 0xFu32,
            ;
            assert(mult <= 0x200) by (bit_vector)
                requires
                    mult == 1u64 << ((c_size_mult + 2) as u64),
                    c_size_mult <= 7u32,
            ;
            assert((c_size as u64 + 1) * mult <= 0x200000) by (nonlinear_arith)
                requires
                    c_size <= 0xFFFu32,
                    mult <= 0x200u64,
            ;
            let scaled = (c_size as u64 + 1) * mult;
            assert(scaled * block_len <= 0x10_0000_0000) by (nonlinear_arith)
                requires
                    scaled <= 0x200000u64,
                    block_len <= 0x8000u64,
            ;
            let capacity = scaled * block_len;
            self.block_count = capacity / 512;
            self.card_type = CardType::SDSC;
            Ok(())
        } else if csd_structure == 1 {
            let c_size = (((c1 & 0x3F) as u64) << 16) | ((c2 >> 16) as u64);
            assert((((c1 & 0x3F) as u64) << 16) | ((c2 >> 16) as u64) <= 0x3FFFFF) by (bit_vector);
            self.block_count = (c_size + 1) * 1024;
            self.card_type = if self.block_count > 0x80000000 {
                CardType::SDXC
            } else {
                CardType::SDHC
            };
            Ok(())
        } else {
            Err(SdhciError::UnknownCsdVersion)
        }
    }

    /// Drives the full initialization sequence: card presence, software
    /// reset, clock bring-up, interrupt enables, GO_IDLE_STATE and
    /// SEND_IF_COND (a mismatched echo pattern is tolerated for legacy
    /// cards), the bounded ACMD41 voltage negotiation, CID and RCA
    /// assignment (a zero RCA is rejected), card selection, CSD decoding,
    /// block length setup, and the switch to the 4-bit bus.
    pub fn init(&mut self) -> (r: Result<(), SdhciError>)
        requires
            old(self).wf(),
        ensures
            final(self).wf(),
            r is Ok ==> final(self).spec_rca() != 0,
            r is Ok ==> final(self).spec_card_type() != CardType::NoCard,
            r == Err::<(), SdhciError>(SdhciError::NoCardPresent) ==> final(self).card_state_eq(
                *old(self),
            ),
    {
        if !self.is_card_present() {
            return Err(SdhciError::NoCardPresent);
        }

        self.reset()?;
        self.init_clock()?;
        self.bus.write32(
            SDHCI_INT_ENABLE,
            SDHCI_INT_RESPONSE | SDHCI_INT_DATA_END | SDHCI_INT_ERROR,
        );

        self.send_command(CMD_GO_IDLE_STATE, 0, SDHCI_CMD_RESP_NONE)?;

        let cond_resp = self.send_command(
            CMD_SEND_IF_COND,
            0x1AA,
            SDHCI_CMD_RESP_R1 | SDHCI_CMD_CRC_EN | SDHCI_CMD_INDEX_EN,
        )?;
        // A card that does not echo the check pattern is tolerated: legacy
        // cards answer the voltage negotiation below instead.
        let _voltage_echoed = cond_resp & 0xFFF == 0x1AA;

        let mut ocr: u32 = 0x40300000;
        let mut attempt: usize = 0;
        while attempt < 1000
            invariant_except_break
                self.card_state_eq(*old(self)),
                self.wf(),
            ensures
                self.card_state_eq(*old(self)),
                self.wf(),
            decreases 1000 - attempt,
        {
            self.send_command(CMD_APP_CMD, 0, SDHCI_CMD_RESP_R1)?;
            let resp = self.send_command(ACMD_SD_SEND_OP_COND, ocr, SDHCI_CMD_RESP_R3)?;
            if ocr_negotiation_complete(resp) {
                ocr = resp;
                break ;
            }
            attempt += 1;
        }

        if !ocr_negotiation_complete(ocr) {
            return Err(SdhciError::CardInitTimeout);
        }

        self.card_type = card_type_from_ocr(ocr, self.card_type);

        self.send_command(CMD_ALL_SEND_CID, 0, SDHCI_CMD_RESP_R2)?;
        let rca_resp = self.send_command(CMD_SEND_RELATIVE_ADDR, 0, SDHCI_CMD_RESP_R6)?;
        self.rca = rca_from_response(rca_resp)?;

        self.send_command(CMD_SELECT_CARD, self.rca << 16, SDHCI_CMD_RESP_R1)?;

        let csd0 = self.send_command(CMD_SEND_CSD, self.rca << 16, SDHCI_CMD_RESP_R2)?;
        let csd1 = self.bus.read32(SDHCI_RESPONSE_1);
        let csd2 = self.bus.read32(SDHCI_RESPONSE_2);
        let csd3 = self.bus.read32(SDHCI_RESPONSE_3);
        self.parse_csd([csd0, csd1, csd2, csd3])?;

        self.send_command(CMD_SET_BLOCKLEN, BLOCK_SIZE as u32, SDHCI_CMD_RESP_R1)?;
        self.set_high_speed();

        let host_ctrl = self.bus.read8(SDHCI_HOST_CONTROL_1);
        self.bus.write8(SDHCI_HOST_CONTROL_1, host_ctrl | SDHCI_CTRL_4BITBUS);

        Ok(())
    }

    /// Programs and runs one DMA transfer of whole 512-byte blocks. The
    /// buffer must be a positive multiple of 512 bytes that fits the 16-bit
    /// block-count register, and 4-byte aligned for the engine; a bad length
    /// is rejected before the controller is touched. The address handed to
    /// the controller is byte-addressed for SDSC cards and block-addressed
    /// otherwise.
    pub fn transfer_blocks(&mut self, lba: u64, buffer: &mut Vec<u8>, write: bool) -> (r: Result<
        (),
        SdhciError,
    >)
        ensures
            final(self).card_state_eq(*old(self)),
            !spec_valid_transfer_len(old(buffer)@.len() as int) ==> r == Err::<(), SdhciError>(
                SdhciError::InvalidBufferSize,
            ) && *final(self) == *old(self) && final(buffer)@ == old(buffer)@,
            spec_valid_transfer_len(old(buffer)@.len() as int) ==> (r matches Err(e) ==> e
                != SdhciError::InvalidBufferSize),
    {
        let len = buffer.len();
        let block_count = len / 512;
        if block_count == 0 || len % 512 != 0 || block_count > 0xFFFF {
            return Err(SdhciError::InvalidBufferSize);
        }
        let blocks = block_count as u16;

        let dma_addr = match self.bus.dma_bind(buffer) {
            Some(a) => a,
            None => {
                return Err(SdhciError::MisalignedBuffer);
            },
        };

        let addr = transfer_address(self.card_type, lba);

        self.wait_for_data()?;
        self.bus.write16(SDHCI_BLOCK_SIZE, BLOCK_SIZE);
        self.bus.write16(SDHCI_BLOCK_COUNT, blocks);

        self.bus.write16(SDHCI_TRANSFER_MODE, transfer_mode_value(blocks));
        self.bus.write32(SDHCI_DMA_ADDRESS, dma_addr);

        let cmd = transfer_command(write, blocks);
        let cmd_flags = SDHCI_CMD_RESP_R1 | SDHCI_CMD_CRC_EN | SDHCI_CMD_INDEX_EN | SDHCI_CMD_DATA;
        self.send_command(cmd, #[verifier::truncate] (addr as u32), cmd_flags)?;

        self.wait_for_interrupt(SDHCI_INT_DATA_END)?;

        if !write && blocks > 1 {
            self.send_command(CMD_STOP_TRANSMISSION, 0, SDHCI_CMD_RESP_R1)?;
        }

        Ok(())
    }
}

/// Block `i` of the caller's buffer: the 512 bytes at
/// `[512*i, 512*i + 512)`, copied into a fresh staging vector.
#[verifier::loop_isolation(false)]
fn stage_block(buffer: &Vec<u8>, i: usize) -> (r: Vec<u8>)
    requires
        512 * i + 512 <= buffer@.len(),
    ensures
        r@ == buffer@.subrange(512 * i as int, 512 * i as int + 512),
        r@.len() == 512,
{
    let _len = buffer.len();
    let mut staging: Vec<u8> = Vec::new();
    let mut k: usize = 0;
    while k < 512
        invariant
            k <= 512,
            512 * i + 512 <= buffer@.len(),
            staging@ == buffer@.subrange(512 * i as int, 512 * i as int + k as int),
        decreases 512 - k,
    {
        staging.push(buffer[512 * i + k]);
        proof {
            assert(staging@ =~= buffer@.subrange(512 * i as int, 512 * i as int + k as int + 1));
        }
        k += 1;
    }
    staging
}

impl<R: RegisterBus> BlockDevice for SdhciController<R> {
    /// Reads whole blocks into `buffer` by DMA; every protocol failure is
    /// reported as an I/O error, and a buffer that is not a positive
    /// multiple of 512 bytes always is one, with nothing touched.
    fn read_blocks(&mut self, lba: u64, buffer: &mut Vec<u8>) -> (r: BlockResult<()>)
        ensures
            final(self).card_state_eq(*old(self)),
            r matches Err(e) ==> e == BlockError::IoError,
            !spec_valid_transfer_len(old(buffer)@.len() as int) ==> r == Err::<(), BlockError>(
                BlockError::IoError,
            ) && *final(self) == *old(self) && final(buffer)@ == old(buffer)@,
    {
        match self.transfer_blocks(lba, buffer, false) {
            Ok(()) => Ok(()),
            Err(_) => Err(BlockError::IoError),
        }
    }

    /// Writes whole blocks one 512-byte block at a time, each staged into a
    /// fresh buffer holding exactly that block of the caller's bytes: the
    /// source buffer's own alignment is never trusted for writes, only for
    /// reads (the bus's `dma_bind` checks the staging buffer's alignment at
    /// run time, in place of an aligned static allocation). A length that
    /// is not a multiple of 512 is rejected before any command is issued,
    /// and an empty buffer succeeds without touching the controller.
    fn write_blocks(&mut self, lba: u64, buffer: &Vec<u8>) -> (r: BlockResult<()>)
        ensures
            final(self).card_state_eq(*old(self)),
            r == Err::<(), BlockError>(BlockError::InvalidParameter) <==> buffer@.len() % 512 != 0,
            buffer@.len() % 512 != 0 ==> *final(self) == *old(self),
            buffer@.len() == 0 ==> r == Ok::<(), BlockError>(()) && *final(self) == *old(self),
            r matches Err(e) ==> (e == BlockError::InvalidParameter || e == BlockError::IoError),
    {
        let len = buffer.len();
        if len % 512 != 0 {
            return Err(BlockError::InvalidParameter);
        }
        let blocks = len / 512;
        let mut i: usize = 0;
        while i < blocks
            invariant
                self.card_state_eq(*old(self)),
                blocks == len / 512,
                len % 512 == 0,
                len == buffer@.len(),
                len == 0 ==> *self == *old(self),
            decreases blocks - i,
        {
            proof {
                assert(512 * (i as int) + 512 <= len) by (nonlinear_arith)
                    requires
                        i < blocks,
                        blocks == len / 512,
                        len % 512 == 0,
                ;
            }
            let mut staging = stage_block(buffer, i);
            let block_lba = lba.wrapping_add(i as u64);
            match self.transfer_blocks(block_lba, &mut staging, true) {
                Ok(()) => {},
                Err(_) => {
                    return Err(BlockError::IoError);
                },
            }
            i += 1;
        }
        Ok(())
    }

    fn block_size(&self) -> (r: usize)
        ensures
            r == 512,
    {
        BLOCK_SIZE as usize
    }

    fn block_count(&self) -> (r: u64)
        ensures
            r == self.spec_block_count(),
    {
        self.block_count
    }
}

} // verus!
