//! Minimal NVMe capability probe: reads the controller's version register.
//! Block transfers are not implemented; the controller reports zero capacity
//! and fails all I/O.

use vstd::prelude::*;

use crate::block::{BlockDevice, BlockError, BlockResult};
use crate::bus::RegisterBus;

verus! {

pub struct NvmeController<R: RegisterBus> {
    bus: R,
}

impl<R: RegisterBus> NvmeController<R> {
    pub fn new(bus: R) -> Self {
        NvmeController { bus }
    }

    /// Reads the version register at offset 8 and reports success; no
    /// queues are set up.
    pub fn init(&mut self) -> (r: Result<(), &'static str>)
        ensures
            r is Ok,
    {
        let _vs = self.bus.read32(0x08);
        Ok(())
    }
}

impl<R: RegisterBus> BlockDevice for NvmeController<R> {
    fn read_blocks(&mut self, _lba: u64, _buffer: &mut Vec<u8>) -> (r: BlockResult<()>)
        ensures
            r == Err::<(), BlockError>(BlockError::IoError),
            *final(self) == *old(self),
            final(_buffer)@ == old(_buffer)@,
    {
        Err(BlockError::IoError)
    }

    fn write_blocks(&mut self, _lba: u64, _buffer: &Vec<u8>) -> (r: BlockResult<()>)
        ensures
            r == Err::<(), BlockError>(BlockError::IoError),
            *final(self) == *old(self),
    {
        Err(BlockError::IoError)
    }

    fn block_size(&self) -> (r: usize)
        ensures
            r == 512,
    {
        512
    }

    fn block_count(&self) -> (r: u64)
        ensures
            r == 0,
    {
        0
    }
}

} // verus!
