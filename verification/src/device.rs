//! Implementation of a generic device bus. The bus routes reads and
//! writes to the devices registered on it and comes with a DRAM device
//! at the conventional base address.
//!
//! Every device on this bus is a RAM-backed byte buffer; a
//! memory-mapped peripheral with behaviour of its own would need the
//! device representation to be extended.

mod ram;

pub use ram::RamDevice;

use vstd::prelude::*;

use crate::memory::{spec_read_bus, spec_write_bus, Memory, MemoryData};
use crate::trap::Exception;
use crate::Address;

verus! {

/// The default memory size that each device bus will allocate by default.
pub const DEFAULT_MEMORY_SIZE: usize = 0x20_0000;

/// The address where DRAM will start.
pub const DRAM_BASE: u64 = 0x8000_0000;

/// Trait for reading and writing arbitrary values from a [`DeviceBus`].
///
/// Values travel over the bus as little-endian bytes, so the byte
/// order fix-up the bus performs is part of the codec itself.
pub trait MemoryPod: MemoryData {

}

impl MemoryPod for u8 {

}

impl MemoryPod for u16 {

}

impl MemoryPod for u32 {

}

impl MemoryPod for u64 {

}

/// The emulation of a data bus that contains a bunch of devices at
/// specific addresses.
///
/// Used for reading and writing memory.
#[derive(Debug)]
pub struct DeviceBus {
    /// The routing bus holding the registered devices.
    pub bus: Memory,
}

impl View for DeviceBus {
    type V = Seq<(u64, Seq<u8>)>;

    open spec fn view(&self) -> Seq<(u64, Seq<u8>)> {
        self.bus@
    }
}

impl DeviceBus {
    /// The device ranges neither wrap around the address space nor
    /// overlap one another.
    pub open spec fn wf(&self) -> bool {
        self.bus.wf()
    }

    /// Create a new memory bus with a RAM device of
    /// [`DEFAULT_MEMORY_SIZE`] bytes at [`DRAM_BASE`].
    pub fn new() -> (r: Self)
        ensures
            r.wf(),
            r@.len() == 1,
            r@[0].0 == DRAM_BASE,
            r@[0].1.len() == DEFAULT_MEMORY_SIZE,
            forall|i: int| 0 <= i < DEFAULT_MEMORY_SIZE ==> r@[0].1[i] == 0,
    {
        let mut bus = Memory::new();
        bus.add_device(Address(DRAM_BASE), RamDevice::new(DEFAULT_MEMORY_SIZE));
        DeviceBus { bus }
    }

    /// Add a new device to this memory bus, that starts at the `base`
    /// address. The new device must be disjoint from every registered
    /// one.
    pub fn add_device(&mut self, base: Address, dev: RamDevice)
        requires
            old(self).wf(),
            base.0 + dev@.len() <= u64::MAX,
            forall|i: int|
                0 <= i < old(self)@.len() ==> ((#[trigger] old(self)@[i]).0 + old(self)@[i].1.len()
                    <= base.0 || base.0 + dev@.len() <= old(self)@[i].0),
        ensures
            final(self)@ == old(self)@.push((base.0, dev@)),
            final(self).wf(),
    {
        proof {
            assert(old(self)@ == old(self).bus@);
        }
        self.bus.add_device(base, dev);
    }

    /// Read a `T` from the given address.
    ///
    /// The read fails with a misalignment fault when `addr` is not a
    /// multiple of the width of `T`, and with a load access fault when
    /// no single device covers the whole range; otherwise it returns
    /// the little-endian value of the bytes at `addr`.
    pub fn read<T: MemoryPod>(&self, addr: Address) -> (r: core::result::Result<T, Exception>)
        requires
            self.wf(),
        ensures
            ({
                let s = spec_read_bus(self@, addr.0, T::spec_size());
                match r {
                    Ok(v) => s == Ok::<u64, Exception>(v.to_u64()),
                    Err(e) => s == Err::<u64, Exception>(e),
                }
            }),
    {
        self.bus.read::<T>(addr)
    }

    /// Write a `T` to the given address.
    ///
    /// The write fails with a misalignment fault when `addr` is not a
    /// multiple of the width of `T`, and with a store access fault when
    /// no single device covers the whole range, leaving memory
    /// unchanged; otherwise it stores the value's little-endian bytes.
    pub fn write<T: MemoryPod>(&mut self, addr: Address, item: T) -> (r: core::result::Result<
        (),
        Exception,
    >)
        requires
            old(self).wf(),
        ensures
            final(self).wf(),
            match r {
                Ok(_) => spec_write_bus(old(self)@, addr.0, T::spec_size(), item.to_u64())
                    == Ok::<Seq<(u64, Seq<u8>)>, Exception>(final(self)@),
                Err(e) => spec_write_bus(old(self)@, addr.0, T::spec_size(), item.to_u64())
                    == Err::<Seq<(u64, Seq<u8>)>, Exception>(e) && final(self)@ == old(self)@,
            },
    {
        self.bus.write::<T>(addr, item)
    }
}

} // verus!
