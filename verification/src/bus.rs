//! The register window every controller driver is built on: width-typed
//! access to a controller's memory-mapped registers at fixed byte offsets,
//! together with the buffer hand-off a DMA transfer engine needs.
//!
//! What a register read returns, and what the transfer engine puts into a
//! bound buffer, is decided by the hardware behind the window, so no method
//! of this trait promises anything about its result: everything proved
//! against it holds for every implementation.

use vstd::prelude::*;

verus! {

pub trait RegisterBus {
    /// A single ordered 8-bit read of the register at byte offset `reg`.
    fn read8(&mut self, reg: usize) -> u8;

    /// A single ordered 16-bit read of the register at byte offset `reg`.
    fn read16(&mut self, reg: usize) -> u16;

    /// A single ordered 32-bit read of the register at byte offset `reg`.
    fn read32(&mut self, reg: usize) -> u32;

    /// A single ordered 8-bit write to the register at byte offset `reg`.
    fn write8(&mut self, reg: usize, value: u8);

    /// A single ordered 16-bit write to the register at byte offset `reg`.
    fn write16(&mut self, reg: usize, value: u16);

    /// A single ordered 32-bit write to the register at byte offset `reg`.
    fn write32(&mut self, reg: usize, value: u32);

    /// Makes `buffer` the target of the controller's next data transfer and
    /// returns the bus address to program into the DMA address register, or
    /// `None` if the buffer is not 4-byte aligned for the engine. The
    /// transfer engine may fill or drain the bound buffer.
    fn dma_bind(&mut self, buffer: &mut Vec<u8>) -> Option<u32>;
}

} // verus!
