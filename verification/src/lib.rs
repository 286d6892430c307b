//! Boot-time substrate for a small operating system: the PLAM binary image
//! format with its loader, and a hardware-abstraction layer for block-storage
//! controllers (SDHCI, AHCI, NVMe) behind a bounded device registry.

pub mod ahci;
pub mod architecture;
pub mod block;
pub mod bus;
pub mod bytes;
pub mod channel;
pub mod elf;
pub mod error;
pub mod nvme;
pub mod package;
pub mod partition;
pub mod plam;
pub mod plpm;
pub mod repository;
pub mod sdhci;
pub mod security;
pub mod uart;

use vstd::prelude::*;

verus! {

/// Errors reported by the hardware-abstraction layer as a whole.
#[derive(Debug, Clone, Copy, PartialEq, Eq, Structural)]
pub enum HalError {
    DeviceNotFound,
    Timeout,
    InvalidParameter,
    NotSupported,
    IoError,
}

pub type HalResult<T> = Result<T, HalError>;

impl From<crate::block::BlockError> for HalError {
    /// Block-layer failures map one-to-one onto HAL failures, with a device
    /// error reported as a missing device.
    fn from(error: crate::block::BlockError) -> Self {
        match error {
            crate::block::BlockError::DeviceError => HalError::DeviceNotFound,
            crate::block::BlockError::Timeout => HalError::Timeout,
            crate::block::BlockError::InvalidParameter => HalError::InvalidParameter,
            crate::block::BlockError::NotSupported => HalError::NotSupported,
            crate::block::BlockError::IoError => HalError::IoError,
        }
    }
}

impl vstd::std_specs::convert::FromSpecImpl<crate::block::BlockError> for HalError {
    open spec fn obeys_from_spec() -> bool {
        true
    }

    open spec fn from_spec(error: crate::block::BlockError) -> Self {
        match error {
            crate::block::BlockError::DeviceError => HalError::DeviceNotFound,
            crate::block::BlockError::Timeout => HalError::Timeout,
            crate::block::BlockError::InvalidParameter => HalError::InvalidParameter,
            crate::block::BlockError::NotSupported => HalError::NotSupported,
            crate::block::BlockError::IoError => HalError::IoError,
        }
    }
}

impl From<&'static str> for HalError {
    /// Any textual failure description collapses to an I/O error.
    fn from(_s: &'static str) -> Self {
        HalError::IoError
    }
}

impl vstd::std_specs::convert::FromSpecImpl<&'static str> for HalError {
    open spec fn obeys_from_spec() -> bool {
        true
    }

    open spec fn from_spec(_s: &'static str) -> Self {
        HalError::IoError
    }
}

/// The serial-console contract: byte-at-a-time transmit and non-blocking
/// receive, with string and buffer conveniences built on them.
pub trait Uart: Sized {
    fn init(&mut self) -> HalResult<()>;

    fn putc(&mut self, c: u8) -> HalResult<()>;

    fn getc(&mut self) -> HalResult<Option<u8>>;

    fn puts(&mut self, s: &str) -> HalResult<()> {
        let bytes = s.as_bytes();
        let n = bytes.len();
        let mut i: usize = 0;
        while i < n
            invariant
                i <= n,
                n == bytes@.len(),
            decreases n - i,
        {
            self.putc(bytes[i])?;
            i += 1;
        }
        Ok(())
    }

    fn write(&mut self, data: &Vec<u8>) -> HalResult<()> {
        let n = data.len();
        let mut i: usize = 0;
        while i < n
            invariant
                i <= n,
                n == data@.len(),
            decreases n - i,
        {
            self.putc(data[i])?;
            i += 1;
        }
        Ok(())
    }

    /// Fills a prefix of `buffer` from the device until it is full or no
    /// byte is ready, and reports the prefix's length; the unread tail
    /// keeps its old contents. Which bytes arrive is the device's answer.
    fn read(&mut self, buffer: &mut Vec<u8>) -> (r: HalResult<usize>)
        default_ensures
            final(buffer)@.len() == old(buffer)@.len(),
            r matches Ok(n) ==> n <= old(buffer)@.len() && (forall|j: int|
                n <= j < old(buffer)@.len() ==> final(buffer)@[j] == old(buffer)@[j]),
    {
        let n = buffer.len();
        let mut count: usize = 0;
        while count < n
            invariant_except_break
                count <= n,
                n == buffer@.len(),
                n == old(buffer)@.len(),
                forall|j: int| count <= j < n ==> buffer@[j] == old(buffer)@[j],
            ensures
                count <= n,
                n == buffer@.len(),
                n == old(buffer)@.len(),
                forall|j: int| count <= j < n ==> buffer@[j] == old(buffer)@[j],
            decreases n - count,
        {
            match self.getc()? {
                Some(b) => {
                    buffer[count] = b;
                    count += 1;
                },
                None => {
                    break ;
                },
            }
        }
        Ok(count)
    }
}

/// The periodic-timer contract of the platform layer.
pub trait Timer: Sized {
    fn init(&mut self) -> HalResult<()>;

    fn set_interval(&mut self, interval_ns: u64) -> HalResult<()>;

    fn get_counter(&self) -> HalResult<u64>;

    fn enable(&mut self) -> HalResult<()>;

    fn disable(&mut self) -> HalResult<()>;
}

} // verus!
