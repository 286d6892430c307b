//! The block-storage capability: the closed error set of the block layer,
//! the uniform device contract every controller implements, the tagged union
//! over the controller kinds, and the bounded device registry.

use vstd::prelude::*;

use crate::ahci::AhciController;
use crate::bus::RegisterBus;
use crate::nvme::NvmeController;
use crate::sdhci::SdhciController;

verus! {

/// The closed set of block-layer failures; callers treat all five as
/// distinct retry or abort signals.
#[derive(Debug, Clone, Copy, PartialEq, Eq, Structural)]
pub enum BlockError {
    DeviceError,
    Timeout,
    InvalidParameter,
    NotSupported,
    IoError,
}

pub type BlockResult<T> = Result<T, BlockError>;

impl From<&'static str> for BlockError {
    /// Any protocol-level description collapses to an I/O error at the
    /// block layer.
    fn from(_s: &'static str) -> (r: Self) {
        BlockError::IoError
    }
}

impl vstd::std_specs::convert::FromSpecImpl<&'static str> for BlockError {
    open spec fn obeys_from_spec() -> bool {
        true
    }

    open spec fn from_spec(_s: &'static str) -> Self {
        BlockError::IoError
    }
}

/// The uniform contract over block devices: block-granular reads and
/// writes, pure size queries, and optional DMA and flush capabilities.
/// What a transfer puts into the buffer is decided by the device.
pub trait BlockDevice: Sized {
    fn read_blocks(&mut self, lba: u64, buffer: &mut Vec<u8>) -> BlockResult<()>;

    fn write_blocks(&mut self, lba: u64, buffer: &Vec<u8>) -> BlockResult<()>;

    fn block_size(&self) -> usize;

    fn block_count(&self) -> u64;

    fn supports_dma(&self) -> (r: bool)
        default_ensures
            r == false,
    {
        false
    }

    fn flush(&mut self) -> (r: BlockResult<()>)
        default_ensures
            r == Ok::<(), BlockError>(()),
    {
        Ok(())
    }
}

/// The closed union of controller kinds; each variant owns its controller
/// state exclusively, and dispatch is by pattern match.
pub enum BlockDeviceType<R: RegisterBus> {
    Ahci(AhciController<R>),
    Nvme(NvmeController<R>),
    SdCard(SdhciController<R>),
}

impl<R: RegisterBus> BlockDeviceType<R> {
    /// The block count the device reports: zero for the stub AHCI and NVMe
    /// probes, and the CSD-derived count for an SD card.
    pub open spec fn spec_block_count(&self) -> int {
        match self {
            BlockDeviceType::Ahci(_) => 0,
            BlockDeviceType::Nvme(_) => 0,
            BlockDeviceType::SdCard(dev) => dev.spec_block_count() as int,
        }
    }

    /// Every controller kind uses 512-byte blocks.
    pub open spec fn spec_block_size(&self) -> int {
        512
    }

    /// The controller state is well formed; for an SD card this bounds the
    /// CSD-derived block count.
    pub open spec fn wf(&self) -> bool {
        match self {
            BlockDeviceType::Ahci(_) => true,
            BlockDeviceType::Nvme(_) => true,
            BlockDeviceType::SdCard(dev) => dev.wf(),
        }
    }
}

impl<R: RegisterBus> BlockDevice for BlockDeviceType<R> {
    /// Dispatches to the owning controller: the stub probes always fail
    /// with an I/O error and change nothing; an SD card keeps its card
    /// session, reports every failure as an I/O error, and always fails a
    /// buffer that is not a positive multiple of 512 bytes.
    fn read_blocks(&mut self, lba: u64, buffer: &mut Vec<u8>) -> (r: BlockResult<()>)
        ensures
            *old(self) is Ahci || *old(self) is Nvme ==> r == Err::<(), BlockError>(
                BlockError::IoError,
            ) && *final(self) == *old(self) && final(buffer)@ == old(buffer)@,
            *old(self) is SdCard ==> {
                &&& *final(self) is SdCard
                &&& (*final(self))->SdCard_0.card_state_eq((*old(self))->SdCard_0)
                &&& (r matches Err(e) ==> e == BlockError::IoError)
                &&& (!crate::sdhci::spec_valid_transfer_len(old(buffer)@.len() as int) ==> r
                    == Err::<(), BlockError>(BlockError::IoError) && final(buffer)@ == old(
                    buffer,
                )@)
            },
    {
        match self {
            BlockDeviceType::Ahci(dev) => dev.read_blocks(lba, buffer),
            BlockDeviceType::Nvme(dev) => dev.read_blocks(lba, buffer),
            BlockDeviceType::SdCard(dev) => dev.read_blocks(lba, buffer),
        }
    }

    /// Dispatches to the owning controller: the stub probes always fail
    /// with an I/O error and change nothing; an SD card rejects a length
    /// that is not a multiple of 512 as an invalid parameter before
    /// touching anything, succeeds trivially on an empty buffer, and keeps
    /// its card session.
    fn write_blocks(&mut self, lba: u64, buffer: &Vec<u8>) -> (r: BlockResult<()>)
        ensures
            *old(self) is Ahci || *old(self) is Nvme ==> r == Err::<(), BlockError>(
                BlockError::IoError,
            ) && *final(self) == *old(self),
            *old(self) is SdCard ==> {
                &&& *final(self) is SdCard
                &&& (*final(self))->SdCard_0.card_state_eq((*old(self))->SdCard_0)
                &&& (r == Err::<(), BlockError>(BlockError::InvalidParameter) <==> buffer@.len()
                    % 512 != 0)
                &&& (buffer@.len() % 512 != 0 ==> *final(self) == *old(self))
                &&& (buffer@.len() == 0 ==> r == Ok::<(), BlockError>(()) && *final(self) == *old(
                    self,
                ))
                &&& (r matches Err(e) ==> (e == BlockError::InvalidParameter || e
                    == BlockError::IoError))
            },
    {
        match self {
            BlockDeviceType::Ahci(dev) => dev.write_blocks(lba, buffer),
            BlockDeviceType::Nvme(dev) => dev.write_blocks(lba, buffer),
            BlockDeviceType::SdCard(dev) => dev.write_blocks(lba, buffer),
        }
    }

    fn block_size(&self) -> (r: usize)
        ensures
            r == self.spec_block_size(),
    {
        match self {
            BlockDeviceType::Ahci(dev) => dev.block_size(),
            BlockDeviceType::Nvme(dev) => dev.block_size(),
            BlockDeviceType::SdCard(dev) => dev.block_size(),
        }
    }

    fn block_count(&self) -> (r: u64)
        ensures
            r == self.spec_block_count(),
    {
        match self {
            BlockDeviceType::Ahci(dev) => dev.block_count(),
            BlockDeviceType::Nvme(dev) => dev.block_count(),
            BlockDeviceType::SdCard(dev) => dev.block_count(),
        }
    }

    fn supports_dma(&self) -> (r: bool)
        ensures
            r == false,
    {
        match self {
            BlockDeviceType::Ahci(dev) => dev.supports_dma(),
            BlockDeviceType::Nvme(dev) => dev.supports_dma(),
            BlockDeviceType::SdCard(dev) => dev.supports_dma(),
        }
    }

    fn flush(&mut self) -> (r: BlockResult<()>)
        ensures
            r == Ok::<(), BlockError>(()),
    {
        match self {
            BlockDeviceType::Ahci(dev) => dev.flush(),
            BlockDeviceType::Nvme(dev) => dev.flush(),
            BlockDeviceType::SdCard(dev) => dev.flush(),
        }
    }
}

/// The capacity in bytes of the first `n` devices of `s`:
/// `block_count * block_size` summed in registration order.
pub open spec fn spec_capacity_prefix<R: RegisterBus>(s: Seq<BlockDeviceType<R>>, n: int) -> int
    decreases n,
{
    if n <= 0 {
        0
    } else {
        spec_capacity_prefix(s, n - 1) + s[n - 1].spec_block_count() * s[n - 1].spec_block_size()
    }
}

/// The total capacity in bytes of all devices of `s`.
pub open spec fn spec_total_capacity<R: RegisterBus>(s: Seq<BlockDeviceType<R>>) -> int {
    spec_capacity_prefix(s, s.len() as int)
}

/// With every device well formed, the capacity of `n` devices is at most
/// `n` times the largest per-device capacity (2^32 blocks of 512 bytes).
proof fn lemma_capacity_prefix_bound<R: RegisterBus>(s: Seq<BlockDeviceType<R>>, n: int)
    requires
        0 <= n <= s.len(),
        forall|i: int| 0 <= i < s.len() ==> (#[trigger] s[i]).wf(),
    ensures
        0 <= spec_capacity_prefix(s, n) <= n * 0x200_0000_0000,
    decreases n,
{
    if n > 0 {
        lemma_capacity_prefix_bound(s, n - 1);
        assert(s[n - 1].spec_block_count() * s[n - 1].spec_block_size() <= 0x200_0000_0000);
    }
}

/// A bounded registry of at most 8 block devices. The registry is the sole
/// owner of every registered controller; devices are appended in
/// registration order and never reordered or removed.
pub struct BlockDeviceManager<R: RegisterBus> {
    devices: Vec<BlockDeviceType<R>>,
}

impl<R: RegisterBus> View for BlockDeviceManager<R> {
    type V = Seq<BlockDeviceType<R>>;

    closed spec fn view(&self) -> Seq<BlockDeviceType<R>> {
        self.devices@
    }
}

impl<R: RegisterBus> BlockDeviceManager<R> {
    /// At most 8 devices are registered and each is well formed.
    pub open spec fn wf(&self) -> bool {
        self@.len() <= 8 && forall|i: int| 0 <= i < self@.len() ==> (#[trigger] self@[i]).wf()
    }

    pub fn new() -> (r: Self)
        ensures
            r@ == Seq::<BlockDeviceType<R>>::empty(),
            r.wf(),
    {
        BlockDeviceManager { devices: Vec::new() }
    }

    /// Appends a device: rejected with `NotSupported` when all 8 slots are
    /// taken, and with `DeviceError` when the device reports zero capacity
    /// (a capacity-probed device is assumed live).
    pub fn add_device(&mut self, device: BlockDeviceType<R>) -> (r: BlockResult<()>)
        requires
            old(self).wf(),
            device.wf(),
        ensures
            final(self).wf(),
            old(self)@.len() >= 8 ==> r == Err::<(), BlockError>(BlockError::NotSupported)
                && final(self)@ == old(self)@,
            old(self)@.len() < 8 && device.spec_block_count() == 0 ==> r == Err::<(), BlockError>(
                BlockError::DeviceError,
            ) && final(self)@ == old(self)@,
            old(self)@.len() < 8 && device.spec_block_count() != 0 ==> r == Ok::<(), BlockError>(())
                && final(self)@ == old(self)@.push(device),
    {
        if self.devices.len() >= 8 {
            return Err(BlockError::NotSupported);
        }
        if device.block_count() == 0 {
            return Err(BlockError::DeviceError);
        }
        self.devices.push(device);
        Ok(())
    }

    /// The registered device at `index`, if any.
    pub fn get_device(&mut self, index: usize) -> (r: Option<&mut BlockDeviceType<R>>)
        ensures
            index < old(self)@.len() ==> (r matches Some(d) && *d == old(self)@[index as int]
                && final(self)@ == old(self)@.update(index as int, *final(d))),
            index >= old(self)@.len() ==> r is None && final(self)@ == old(self)@,
    {
        if index < self.devices.len() {
            Some(&mut self.devices[index])
        } else {
            None
        }
    }

    /// Returns the first registered device whatever the requested name: the
    /// name filter is a known stub and is deliberately not interpreted.
    pub fn get_device_by_name(&mut self, _name: &str) -> (r: Option<&mut BlockDeviceType<R>>)
        ensures
            old(self)@.len() > 0 ==> (r matches Some(d) && *d == old(self)@[0] && final(self)@
                == old(self)@.update(0, *final(d))),
            old(self)@.len() == 0 ==> r is None && final(self)@ == old(self)@,
    {
        self.get_device(0)
    }

    /// The number of registered devices.
    pub fn device_count(&self) -> (r: usize)
        ensures
            r == self@.len(),
    {
        self.devices.len()
    }

    /// The sum of `block_count * block_size` over all registered devices.
    #[verifier::loop_isolation(false)]
    pub fn total_capacity(&self) -> (r: u64)
        requires
            self.wf(),
        ensures
            r == spec_total_capacity(self@),
    {
        let mut total: u64 = 0;
        let count = self.devices.len();
        let mut i: usize = 0;
        while i < count
            invariant
                i <= count,
                total == spec_capacity_prefix(self@, i as int),
            decreases count - i,
        {
            proof {
                lemma_capacity_prefix_bound(self@, i as int + 1);
            }
            let dev = &self.devices[i];
            total = total + dev.block_count() * (dev.block_size() as u64);
            i += 1;
        }
        total
    }
}

} // verus!
