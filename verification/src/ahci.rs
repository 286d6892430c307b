//! Minimal AHCI capability probe: checks the AHCI-enable capability bit and
//! sets the global-host-control enable bit. Block transfers are not
//! implemented; the controller reports zero capacity and fails all I/O.

use vstd::prelude::*;

use crate::block::{BlockDevice, BlockError, BlockResult};
use crate::bus::RegisterBus;

verus! {

pub struct AhciController<R: RegisterBus> {
    bus: R,
}

impl<R: RegisterBus> AhciController<R> {
    pub fn new(bus: R) -> Self {
        AhciController { bus }
    }

    /// Requires bit 31 of the offset-0 capability register to be set, then
    /// sets the global-host-control enable bit at offset 4.
    pub fn init(&mut self) -> (r: Result<(), &'static str>)
        ensures
            r matches Err(e) ==> e@ == "Controller does not support AHCI"@,
    {
        let cap = self.bus.read32(0x00);
        if cap & 0x8000_0000 == 0 {
            return Err("Controller does not support AHCI");
        }
        let ghc = self.bus.read32(0x04);
        self.bus.write32(0x04, ghc | 0x8000_0000);
        Ok(())
    }

    /// Reads the ports-implemented register.
    pub fn detect_ports(&mut self) -> u32 {
        self.bus.read32(0x0C)
    }
}

impl<R: RegisterBus> BlockDevice for AhciController<R> {
    fn read_blocks(&mut self, _lba: u64, _buffer: &mut Vec<u8>) -> (r: BlockResult<()>)
        ensures
            r == Err::<(), BlockError>(BlockError::IoError),
            *final(self) == *old(self),
            final(_buffer)@ == old(_buffer)@,
    {
        Err(BlockError::IoError)
    }

    fn write_blocks(&mut self, _lba: u64, _buffer: &Vec<u8>) -> (r: BlockResult<()>)
        ensures
            r == Err::<(), BlockError>(BlockError::IoError),
            *final(self) == *old(self),
    {
        Err(BlockError::IoError)
    }

    fn block_size(&self) -> (r: usize)
        ensures
            r == 512,
    {
        512
    }

    fn block_count(&self) -> (r: u64)
        ensures
            r == 0,
    {
        0
    }
}

} // verus!
