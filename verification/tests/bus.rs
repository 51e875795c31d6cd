//! Tests for the memory bus: device routing, alignment and access
//! faults, and little-endian storage.

use spear::device::DeviceBus;
use spear::memory::{Memory, RamDevice};
use spear::trap::Exception;
use spear::Address;

#[test]
fn device_read_write_ram() {
    let mut mem = DeviceBus::new();

    assert_eq!(
        mem.read::<u64>(0x6000_0000u32.into()),
        Err(Exception::LoadAccessFault)
    );
    assert_eq!(mem.read::<u64>(0x8000_0000u32.into()), Ok(0u64));

    assert_eq!(mem.write::<u64>(0x8000_0000u32.into(), 0x1234), Ok(()));
    assert_eq!(mem.read::<u64>(0x8000_0000u32.into()), Ok(0x1234));
}

#[test]
fn memory_read_write_ram() {
    let mut mem = Memory::new();
    mem.add_device(0xABCD_0000u32.into(), RamDevice::new(256));

    assert_eq!(
        mem.read::<u64>(0x8000_0000u32.into()),
        Err(Exception::LoadAccessFault)
    );
    assert_eq!(mem.read::<u64>(0xABCD_0000u32.into()), Ok(0u64));

    assert_eq!(mem.write::<u64>(0xABCD_0000u32.into(), 0x1234), Ok(()));
    assert_eq!(mem.read::<u64>(0xABCD_0000u32.into()), Ok(0x1234));
}

#[test]
fn fresh_dram_reads_zero_and_stores_round_trip() {
    let mut mem = DeviceBus::new();

    // a fresh DRAM device reads as zero
    assert_eq!(mem.read::<u64>(0x8000_0000u32.into()), Ok(0u64));
    // a store comes back on a reload
    assert_eq!(mem.write::<u64>(0x8000_0000u32.into(), 0x1234), Ok(()));
    assert_eq!(mem.read::<u64>(0x8000_0000u32.into()), Ok(0x1234));
    // an address with no device behind it faults
    assert_eq!(
        mem.read::<u64>(0x6000_0000u32.into()),
        Err(Exception::LoadAccessFault)
    );
}

#[test]
fn misaligned_accesses_fault() {
    let mut mem = DeviceBus::new();

    assert_eq!(
        mem.read::<u32>(Address(0x8000_0002)),
        Err(Exception::LoadAddressMisaligned(Address(0x8000_0002)))
    );
    assert_eq!(
        mem.write::<u16>(Address(0x8000_0001), 7),
        Err(Exception::StoreAddressMisaligned(Address(0x8000_0001)))
    );
    // byte accesses have no alignment requirement
    assert_eq!(mem.write::<u8>(Address(0x8000_0001), 0xAB), Ok(()));
    assert_eq!(mem.read::<u8>(Address(0x8000_0001)), Ok(0xABu8));
}

#[test]
fn little_endian_layout() {
    let mut mem = DeviceBus::new();

    assert_eq!(mem.write::<u32>(Address(0x8000_0000), 0x1122_3344), Ok(()));
    assert_eq!(mem.read::<u8>(Address(0x8000_0000)), Ok(0x44u8));
    assert_eq!(mem.read::<u8>(Address(0x8000_0001)), Ok(0x33u8));
    assert_eq!(mem.read::<u8>(Address(0x8000_0002)), Ok(0x22u8));
    assert_eq!(mem.read::<u8>(Address(0x8000_0003)), Ok(0x11u8));
    assert_eq!(mem.read::<u16>(Address(0x8000_0000)), Ok(0x3344u16));
}

#[test]
fn segment_loader_zero_fills() {
    let mut mem = Memory::new();
    mem.add_device(Address(0x8000_0000), RamDevice::new(0x1000));
    // poison the target range first
    assert_eq!(mem.write::<u32>(Address(0x8000_0004), 0xFFFF_FFFF), Ok(()));

    let data = vec![0xAA, 0xBB];
    assert_eq!(mem.load_segment(Address(0x8000_0000), &data, 8), Ok(()));
    assert_eq!(mem.read::<u8>(Address(0x8000_0000)), Ok(0xAAu8));
    assert_eq!(mem.read::<u8>(Address(0x8000_0001)), Ok(0xBBu8));
    // the rest of the segment is zero-filled up to its full size
    assert_eq!(mem.read::<u8>(Address(0x8000_0002)), Ok(0u8));
    assert_eq!(mem.read::<u32>(Address(0x8000_0004)), Ok(0u32));
}
