//! Serial-console drivers over the register window: the PL011 and the two
//! 16550 variants. Transmit-ready waits are bounded at `UART_MAX_WAIT`
//! polls; the hardware's answer decides how the wait ends, so the contracts
//! promise nothing about the bytes moved.

use vstd::prelude::*;

use crate::bus::RegisterBus;
use crate::{HalError, HalResult, Uart};

verus! {

/// Bound on every busy-poll of a UART status bit.
const UART_MAX_WAIT: usize = 1_000_000;

/// Serial bring-up for targets whose default console needs no process-wide
/// state. Platforms with a shared default console set it up in their
/// platform layer instead.
pub fn init_default_uart() -> (r: HalResult<()>)
    ensures
        r == Ok::<(), HalError>(()),
{
    Ok(())
}

/// The PL011 serial controller.
pub struct Pl011Uart<R: RegisterBus> {
    bus: R,
}

impl<R: RegisterBus> Pl011Uart<R> {
    pub fn new(bus: R) -> Self {
        Pl011Uart { bus }
    }

    /// Disables the UART, programs the divisor and line format for 8-bit
    /// frames with FIFOs, and re-enables transmit and receive.
    pub fn init(&mut self) {
        self.bus.write32(0x30, 0x0000);
        self.bus.write32(0x24, 1);
        self.bus.write32(0x28, 40);
        self.bus.write32(0x2C, (1 << 4) | (3 << 5));
        self.bus.write32(0x30, (1 << 0) | (1 << 8) | (1 << 9));
    }

    /// Waits (bounded) for space in the transmit FIFO, then writes the
    /// byte. A full FIFO that never drains forfeits the byte after
    /// `UART_MAX_WAIT` polls rather than spinning forever.
    pub fn putc(&mut self, c: u8) {
        let mut attempt: usize = 0;
        while attempt < UART_MAX_WAIT
            decreases UART_MAX_WAIT - attempt,
        {
            if self.bus.read32(0x18) & (1 << 5) == 0 {
                break ;
            }
            attempt += 1;
        }
        self.bus.write32(0x00, c as u32);
    }

    /// Writes the string byte by byte, expanding `\n` to `\r\n`.
    pub fn puts(&mut self, s: &str) {
        let bytes = s.as_bytes();
        let n = bytes.len();
        let mut i: usize = 0;
        while i < n
            invariant
                i <= n,
                n == bytes@.len(),
            decreases n - i,
        {
            let b = bytes[i];
            if b == 0x0A {
                self.putc(0x0D);
            }
            self.putc(b);
            i += 1;
        }
    }
}

/// The NS16550 serial controller.
pub struct Ns16550Uart<R: RegisterBus> {
    bus: R,
}

impl<R: RegisterBus> Ns16550Uart<R> {
    pub fn new(bus: R) -> Self {
        Ns16550Uart { bus }
    }
}

impl<R: RegisterBus> Uart for Ns16550Uart<R> {
    /// Programs the divisor latch for 8-N-1 frames and enables the FIFOs.
    fn init(&mut self) -> (r: HalResult<()>)
        ensures
            r is Ok,
    {
        self.bus.write8(1, 0x00);
        self.bus.write8(3, 0x80);
        self.bus.write8(0, 0x03);
        self.bus.write8(1, 0x00);
        self.bus.write8(3, 0x03);
        self.bus.write8(2, 0xC7);
        Ok(())
    }

    /// Waits (bounded) for the transmit-holding register to empty, then
    /// writes the byte; a transmitter that never readies times out rather
    /// than spinning forever.
    fn putc(&mut self, c: u8) -> HalResult<()> {
        let mut attempt: usize = 0;
        while attempt < UART_MAX_WAIT
            decreases UART_MAX_WAIT - attempt,
        {
            if self.bus.read8(5) & 0x20 != 0 {
                self.bus.write8(0, c);
                return Ok(());
            }
            attempt += 1;
        }
        Err(HalError::Timeout)
    }

    /// One byte from the receive buffer if data is ready, without waiting.
    fn getc(&mut self) -> HalResult<Option<u8>> {
        if self.bus.read8(5) & 0x01 != 0 {
            Ok(Some(self.bus.read8(0)))
        } else {
            Ok(None)
        }
    }
}

/// The memory-mapped 16550 variant.
pub struct Uart16550<R: RegisterBus> {
    bus: R,
}

impl<R: RegisterBus> Uart16550<R> {
    pub fn new(bus: R) -> Self {
        Uart16550 { bus }
    }
}

impl<R: RegisterBus> Uart for Uart16550<R> {
    /// Programs the divisor latch for 8-N-1 frames and enables the FIFOs.
    fn init(&mut self) -> (r: HalResult<()>)
        ensures
            r is Ok,
    {
        self.bus.write8(1, 0x00);
        self.bus.write8(3, 0x80);
        self.bus.write8(0, 0x03);
        self.bus.write8(1, 0x00);
        self.bus.write8(3, 0x03);
        self.bus.write8(2, 0xC7);
        Ok(())
    }

    /// Waits (bounded) for the transmit-holding register to empty, then
    /// writes the byte; a transmitter that never readies times out rather
    /// than spinning forever.
    fn putc(&mut self, c: u8) -> HalResult<()> {
        let mut attempt: usize = 0;
        while attempt < UART_MAX_WAIT
            decreases UART_MAX_WAIT - attempt,
        {
            if self.bus.read8(5) & 0x20 != 0 {
                self.bus.write8(0, c);
                return Ok(());
            }
            attempt += 1;
        }
        Err(HalError::Timeout)
    }

    /// One byte from the receive buffer if data is ready, without waiting.
    fn getc(&mut self) -> HalResult<Option<u8>> {
        if self.bus.read8(5) & 0x01 != 0 {
            Ok(Some(self.bus.read8(0)))
        } else {
            Ok(None)
        }
    }
}

} // verus!
