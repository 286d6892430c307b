use plum::ahci::AhciController;
use plum::block::{BlockDevice, BlockDeviceManager, BlockDeviceType, BlockError};
use plum::bus::RegisterBus;
use plum::nvme::NvmeController;
use plum::sdhci::SdhciController;
use plum::uart::{Ns16550Uart, Pl011Uart, Uart16550};
use plum::{HalError, Uart};

/// A register window whose reads all answer zero.
struct QuietBus;

impl RegisterBus for QuietBus {
    fn read8(&mut self, _reg: usize) -> u8 {
        0
    }

    fn read16(&mut self, _reg: usize) -> u16 {
        0
    }

    fn read32(&mut self, _reg: usize) -> u32 {
        0
    }

    fn write8(&mut self, _reg: usize, _value: u8) {}

    fn write16(&mut self, _reg: usize, _value: u16) {}

    fn write32(&mut self, _reg: usize, _value: u32) {}

    fn dma_bind(&mut self, _buffer: &mut Vec<u8>) -> Option<u32> {
        Some(0)
    }
}

/// An SD card whose CSD (structure version 1) declares `(c_size+1) * 1024`
/// blocks.
fn sd_card(c_size: u32) -> BlockDeviceType<QuietBus> {
    let mut card = SdhciController::new(QuietBus);
    let csd0 = 0x4000_0000;
    let csd1 = (c_size >> 16) & 0x3F;
    let csd2 = (c_size & 0xFFFF) << 16;
    card.parse_csd([csd0, csd1, csd2, 0]).unwrap();
    BlockDeviceType::SdCard(card)
}

#[test]
fn ninth_device_is_rejected_after_eight_additions() {
    let mut manager: BlockDeviceManager<QuietBus> = BlockDeviceManager::new();
    for i in 0..8 {
        assert_eq!(manager.add_device(sd_card(i)), Ok(()), "device {} should register", i);
    }
    assert_eq!(manager.device_count(), 8);
    assert_eq!(manager.add_device(sd_card(8)), Err(BlockError::NotSupported));
    assert_eq!(manager.device_count(), 8);
}

#[test]
fn zero_capacity_device_is_rejected() {
    let mut manager: BlockDeviceManager<QuietBus> = BlockDeviceManager::new();
    let fresh = BlockDeviceType::SdCard(SdhciController::new(QuietBus));
    assert_eq!(manager.add_device(fresh), Err(BlockError::DeviceError));
    // The stub AHCI and NVMe probes report zero capacity, so they can never
    // register either.
    let ahci = BlockDeviceType::Ahci(AhciController::new(QuietBus));
    assert_eq!(manager.add_device(ahci), Err(BlockError::DeviceError));
    let nvme = BlockDeviceType::Nvme(NvmeController::new(QuietBus));
    assert_eq!(manager.add_device(nvme), Err(BlockError::DeviceError));
    assert_eq!(manager.device_count(), 0);
}

#[test]
fn total_capacity_sums_block_count_times_block_size() {
    let mut manager: BlockDeviceManager<QuietBus> = BlockDeviceManager::new();
    assert_eq!(manager.total_capacity(), 0);
    manager.add_device(sd_card(0)).unwrap(); // 1024 blocks
    manager.add_device(sd_card(1)).unwrap(); // 2048 blocks
    manager.add_device(sd_card(7)).unwrap(); // 8192 blocks
    let expected = (1024u64 + 2048 + 8192) * 512;
    assert_eq!(manager.total_capacity(), expected);
}

#[test]
fn get_device_returns_registered_slots_in_order() {
    let mut manager: BlockDeviceManager<QuietBus> = BlockDeviceManager::new();
    manager.add_device(sd_card(0)).unwrap();
    manager.add_device(sd_card(1)).unwrap();
    let first = manager.get_device(0).expect("slot 0 exists");
    assert_eq!(first.block_count(), 1024);
    let second = manager.get_device(1).expect("slot 1 exists");
    assert_eq!(second.block_count(), 2048);
    assert!(manager.get_device(2).is_none());
}

#[test]
fn get_device_by_name_ignores_the_name() {
    let mut manager: BlockDeviceManager<QuietBus> = BlockDeviceManager::new();
    assert!(manager.get_device_by_name("sd0").is_none());
    manager.add_device(sd_card(0)).unwrap();
    manager.add_device(sd_card(1)).unwrap();
    let dev = manager.get_device_by_name("whatever").expect("first device");
    assert_eq!(dev.block_count(), 1024);
}

#[test]
fn stub_controllers_fail_all_transfers() {
    let mut ahci = AhciController::new(QuietBus);
    let mut buffer = vec![0u8; 512];
    assert_eq!(ahci.read_blocks(0, &mut buffer), Err(BlockError::IoError));
    assert_eq!(ahci.write_blocks(0, &buffer), Err(BlockError::IoError));
    assert_eq!(ahci.block_size(), 512);
    assert_eq!(ahci.block_count(), 0);
    let mut nvme = NvmeController::new(QuietBus);
    assert_eq!(nvme.init(), Ok(()));
    assert_eq!(nvme.read_blocks(0, &mut buffer), Err(BlockError::IoError));
    assert_eq!(nvme.block_count(), 0);
}

#[test]
fn ahci_init_requires_the_capability_bit() {
    // A bus answering zero lacks bit 31 of the capability register.
    let mut ahci = AhciController::new(QuietBus);
    assert_eq!(ahci.init(), Err("Controller does not support AHCI"));

    struct CapableBus;

    impl RegisterBus for CapableBus {
        fn read8(&mut self, _reg: usize) -> u8 {
            0
        }

        fn read16(&mut self, _reg: usize) -> u16 {
            0
        }

        fn read32(&mut self, _reg: usize) -> u32 {
            0x8000_0000
        }

        fn write8(&mut self, _reg: usize, _value: u8) {}

        fn write16(&mut self, _reg: usize, _value: u16) {}

        fn write32(&mut self, _reg: usize, _value: u32) {}

        fn dma_bind(&mut self, _buffer: &mut Vec<u8>) -> Option<u32> {
            Some(0)
        }
    }

    let mut capable = AhciController::new(CapableBus);
    assert_eq!(capable.init(), Ok(()));
    assert_eq!(capable.detect_ports(), 0x8000_0000);
}

#[test]
fn serial_consoles_move_bytes_on_a_ready_transmitter() {
    /// A UART whose status register always reports ready and whose data
    /// register always reads back 0xFF.
    struct ReadyBus;

    impl RegisterBus for ReadyBus {
        fn read8(&mut self, _reg: usize) -> u8 {
            0xFF
        }

        fn read16(&mut self, _reg: usize) -> u16 {
            0
        }

        fn read32(&mut self, _reg: usize) -> u32 {
            0
        }

        fn write8(&mut self, _reg: usize, _value: u8) {}

        fn write16(&mut self, _reg: usize, _value: u16) {}

        fn write32(&mut self, _reg: usize, _value: u32) {}

        fn dma_bind(&mut self, _buffer: &mut Vec<u8>) -> Option<u32> {
            None
        }
    }

    let mut ns = Ns16550Uart::new(ReadyBus);
    assert_eq!(ns.init(), Ok(()));
    assert_eq!(ns.putc(b'x'), Ok(()));
    assert_eq!(ns.getc(), Ok(Some(0xFF)));
    assert_eq!(ns.puts("hi\n"), Ok(()));
    assert_eq!(ns.write(&vec![1, 2, 3]), Ok(()));
    let mut buf = vec![0u8; 4];
    assert_eq!(ns.read(&mut buf), Ok(4));
    assert_eq!(buf, vec![0xFF; 4]);

    let mut mm = Uart16550::new(ReadyBus);
    assert_eq!(mm.init(), Ok(()));
    assert_eq!(mm.putc(b'y'), Ok(()));

    // The PL011 status bit is busy-while-set, so an all-zero register file
    // is a ready transmitter.
    let mut pl = Pl011Uart::new(QuietBus);
    pl.init();
    pl.putc(b'a');
    pl.puts("line\n");

    // A 16550 whose ready bit never rises times out instead of hanging.
    let mut stuck = Ns16550Uart::new(QuietBus);
    assert_eq!(stuck.putc(b'z'), Err(HalError::Timeout));
}
