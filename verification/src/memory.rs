//! Physical memory management.
//!
//! The main type of this module is the [`Memory`] struct, which routes
//! every access to the device whose address range contains it, checks
//! alignment, and assembles little-endian values from raw bytes.

use vstd::prelude::*;

use crate::bits::{le_to_nat, lemma_u64_le_bytes_len, u64_le_bytes};
pub use crate::device::RamDevice;
use crate::trap::Exception;
use crate::Address;

verus! {

/// `data` with the range starting at `off` replaced by `bytes`.
pub open spec fn store_bytes(data: Seq<u8>, off: int, bytes: Seq<u8>) -> Seq<u8> {
    Seq::new(
        data.len(),
        |j: int|
            if off <= j < off + bytes.len() {
                bytes[j - off]
            } else {
                data[j]
            },
    )
}

/// True iff the device `(base, data)` covers the physical address `addr`.
pub open spec fn dev_contains(dev: (u64, Seq<u8>), addr: u64) -> bool {
    dev.0 <= addr < dev.0 + dev.1.len()
}

/// The index of the first device whose range contains `addr`, if any.
pub open spec fn find_dev(devs: Seq<(u64, Seq<u8>)>, addr: u64) -> Option<int>
    decreases devs.len(),
{
    if devs.len() == 0 {
        None
    } else if dev_contains(devs[0], addr) {
        Some(0)
    } else {
        match find_dev(devs.skip(1), addr) {
            None => None,
            Some(i) => Some(i + 1),
        }
    }
}

/// When no device before index `i` covers `addr` but the device at `i`
/// does, the search finds exactly index `i`.
proof fn lemma_find_dev_at(devs: Seq<(u64, Seq<u8>)>, addr: u64, i: int)
    requires
        0 <= i < devs.len(),
        forall|j: int| 0 <= j < i ==> !dev_contains(#[trigger] devs[j], addr),
        dev_contains(devs[i], addr),
    ensures
        find_dev(devs, addr) == Some(i),
    decreases i,
{
    if i == 0 {
    } else {
        assert(!dev_contains(devs[0], addr));
        assert(forall|j: int|
            0 <= j < i - 1 ==> !dev_contains(#[trigger] devs.skip(1)[j], addr) && devs.skip(1)[j]
                == devs[j + 1]);
        assert(devs.skip(1)[i - 1] == devs[i]);
        lemma_find_dev_at(devs.skip(1), addr, i - 1);
    }
}

/// When no device at all covers `addr`, the search fails.
proof fn lemma_find_dev_none(devs: Seq<(u64, Seq<u8>)>, addr: u64)
    requires
        forall|j: int| 0 <= j < devs.len() ==> !dev_contains(#[trigger] devs[j], addr),
    ensures
        find_dev(devs, addr) is None,
    decreases devs.len(),
{
    if devs.len() > 0 {
        assert(forall|j: int|
            0 <= j < devs.len() - 1 ==> !dev_contains(#[trigger] devs.skip(1)[j], addr) && devs.skip(
                1,
            )[j] == devs[j + 1]);
        lemma_find_dev_none(devs.skip(1), addr);
    }
}

/// The outcome of reading `size` little-endian bytes at `addr` from the
/// bus `devs`: the value read, a misalignment fault, or an access fault
/// when no single device covers the whole range.
pub open spec fn spec_read_bus(devs: Seq<(u64, Seq<u8>)>, addr: u64, size: u64) -> core::result::Result<
    u64,
    Exception,
> {
    if addr % size != 0 {
        Err(Exception::LoadAddressMisaligned(Address(addr)))
    } else {
        match find_dev(devs, addr) {
            None => Err(Exception::LoadAccessFault),
            Some(i) => {
                let base = devs[i].0;
                let data = devs[i].1;
                if addr - base + size <= data.len() {
                    Ok(le_to_nat(data.subrange(addr - base, addr - base + size)) as u64)
                } else {
                    Err(Exception::LoadAccessFault)
                }
            },
        }
    }
}

/// The outcome of storing the `size` low-order little-endian bytes of
/// `v` at `addr`: the updated bus, a misalignment fault, or an access
/// fault when no single device covers the whole range.
pub open spec fn spec_write_bus(devs: Seq<(u64, Seq<u8>)>, addr: u64, size: u64, v: u64) -> core::result::Result<
    Seq<(u64, Seq<u8>)>,
    Exception,
> {
    if addr % size != 0 {
        Err(Exception::StoreAddressMisaligned(Address(addr)))
    } else {
        match find_dev(devs, addr) {
            None => Err(Exception::StoreAccessFault),
            Some(i) => {
                let base = devs[i].0;
                let data = devs[i].1;
                if addr - base + size <= data.len() {
                    Ok(
                        devs.update(
                            i,
                            (base, store_bytes(data, addr - base, u64_le_bytes(v, size as nat))),
                        ),
                    )
                } else {
                    Err(Exception::StoreAccessFault)
                }
            },
        }
    }
}

/// The outcome of storing the raw bytes `bytes` at `addr`, with no
/// alignment requirement: the updated bus or a store access fault.
pub open spec fn spec_write_bytes(devs: Seq<(u64, Seq<u8>)>, addr: u64, bytes: Seq<u8>) -> core::result::Result<
    Seq<(u64, Seq<u8>)>,
    Exception,
> {
    match find_dev(devs, addr) {
        None => Err(Exception::StoreAccessFault),
        Some(i) => {
            let base = devs[i].0;
            let data = devs[i].1;
            if addr - base + bytes.len() <= data.len() {
                Ok(devs.update(i, (base, store_bytes(data, addr - base, bytes))))
            } else {
                Err(Exception::StoreAccessFault)
            }
        },
    }
}

/// Trait for reading and writing arbitrary integer values through the
/// memory bus. Values travel as little-endian bytes; the width of the
/// type doubles as its required alignment.
pub trait MemoryData: Sized {
    /// The numeric value this datum denotes.
    spec fn to_u64(self) -> u64;

    /// The width of this type in bytes.
    spec fn spec_size() -> u64;

    /// The width of this type in bytes.
    fn size() -> (r: usize)
        ensures
            r as u64 == Self::spec_size(),
            1 <= r <= 8,
    ;

    /// Assemble a value from little-endian bytes.
    fn from_le_bytes(bytes: &[u8]) -> (r: Self)
        requires
            bytes@.len() == Self::spec_size(),
        ensures
            r.to_u64() as nat == le_to_nat(bytes@),
    ;

    /// Serialise this value into little-endian bytes.
    fn to_le_bytes(self) -> (r: Vec<u8>)
        ensures
            r@ == u64_le_bytes(self.to_u64(), Self::spec_size() as nat),
    ;
}

/// The main struct of this module, which acts as a memory bus combining
/// multiple RAM devices into one address space.
#[derive(Debug)]
pub struct Memory {
    /// The registered devices, each with its base address.
    pub devices: Vec<(u64, RamDevice)>,
}

impl View for Memory {
    type V = Seq<(u64, Seq<u8>)>;

    open spec fn view(&self) -> Seq<(u64, Seq<u8>)> {
        Seq::new(self.devices@.len(), |i: int| (self.devices@[i].0, self.devices@[i].1@))
    }
}

impl Memory {
    /// The device ranges neither wrap around the address space nor
    /// overlap one another.
    pub open spec fn wf(&self) -> bool {
        &&& forall|i: int|
            0 <= i < self@.len() ==> (#[trigger] self@[i]).0 + self@[i].1.len() <= u64::MAX
        &&& forall|i: int, j: int|
            0 <= i < j < self@.len() ==> ((#[trigger] self@[i]).0 + self@[i].1.len()
                <= (#[trigger] self@[j]).0 || self@[j].0 + self@[j].1.len() <= self@[i].0)
    }

    /// Create a new memory bus without any devices.
    pub fn new() -> (r: Self)
        ensures
            r@.len() == 0,
            r.wf(),
    {
        Memory { devices: Vec::new() }
    }

    /// Add a new device to this memory bus, that starts at the `base`
    /// address. The new device must be disjoint from every registered
    /// one.
    pub fn add_device(&mut self, base: Address, dev: RamDevice)
        requires
            old(self).wf(),
            base.0 + dev@.len() <= u64::MAX,
            forall|i: int|
                0 <= i < old(self)@.len() ==> ((#[trigger] old(self)@[i]).0 + old(self)@[i].1.len()
                    <= base.0 || base.0 + dev@.len() <= old(self)@[i].0),
        ensures
            final(self)@ == old(self)@.push((base.0, dev@)),
            final(self).wf(),
    {
        let ghost prev = self@;
        let ghost d = dev@;
        self.devices.push((base.0, dev));
        proof {
            assert(self@ =~= prev.push((base.0, d)));
        }
    }

    /// The index of the first registered device whose range contains
    /// `addr`, if any.
    fn device_for(&self, addr: u64) -> (r: Option<usize>)
        requires
            self.wf(),
        ensures
            match r {
                Some(i) => i < self.devices@.len() && find_dev(self@, addr) == Some(i as int)
                    && dev_contains(self@[i as int], addr),
                None => find_dev(self@, addr) is None,
            },
    {
        let n = self.devices.len();
        let mut i: usize = 0;
        while i < n
            invariant
                self.wf(),
                n == self.devices@.len(),
                i <= n,
                forall|j: int| 0 <= j < i ==> !dev_contains(#[trigger] self@[j], addr),
            decreases n - i,
        {
            let base = self.devices[i].0;
            let size = self.devices[i].1.size();
            assert(self@[i as int] == (self.devices@[i as int].0, self.devices@[i as int].1@));
            if base <= addr && addr - base < size {
                proof {
                    lemma_find_dev_at(self@, addr, i as int);
                }
                return Some(i);
            }
            i = i + 1;
        }
        proof {
            lemma_find_dev_none(self@, addr);
        }
        None
    }

    /// Read a `T` from the given address.
    ///
    /// The read fails with a misalignment fault when `addr` is not a
    /// multiple of the width of `T`, and with a load access fault when
    /// no single device covers the whole range; otherwise it returns
    /// the little-endian value of the bytes at `addr`.
    pub fn read<T: MemoryData>(&self, addr: Address) -> (r: core::result::Result<T, Exception>)
        requires
            self.wf(),
        ensures
            ({
                let s = spec_read_bus(self@, addr.0, T::spec_size());
                match r {
                    Ok(v) => s == Ok::<u64, Exception>(v.to_u64()),
                    Err(e) => s == Err::<u64, Exception>(e),
                }
            }),
    {
        let size = T::size();
        if addr.0 % (size as u64) != 0 {
            return Err(Exception::LoadAddressMisaligned(addr));
        }
        match self.device_for(addr.0) {
            None => Err(Exception::LoadAccessFault),
            Some(i) => {
                let base = self.devices[i].0;
                assert(self@[i as int] == (self.devices@[i as int].0, self.devices@[i as int].1@));
                match self.devices[i].1.load(addr.0 - base, size) {
                    Ok(bytes) => Ok(T::from_le_bytes(bytes.as_slice())),
                    Err(e) => Err(e),
                }
            },
        }
    }

    /// Write a `T` to the given address.
    ///
    /// The write fails with a misalignment fault when `addr` is not a
    /// multiple of the width of `T`, and with a store access fault when
    /// no single device covers the whole range, leaving memory
    /// unchanged; otherwise it stores the value's little-endian bytes.
    pub fn write<T: MemoryData>(&mut self, addr: Address, item: T) -> (r: core::result::Result<
        (),
        Exception,
    >)
        requires
            old(self).wf(),
        ensures
            final(self).wf(),
            match r {
                Ok(_) => spec_write_bus(old(self)@, addr.0, T::spec_size(), item.to_u64())
                    == Ok::<Seq<(u64, Seq<u8>)>, Exception>(final(self)@),
                Err(e) => spec_write_bus(old(self)@, addr.0, T::spec_size(), item.to_u64())
                    == Err::<Seq<(u64, Seq<u8>)>, Exception>(e) && final(self)@ == old(self)@,
            },
    {
        let ghost prev = self@;
        let size = T::size();
        if addr.0 % (size as u64) != 0 {
            return Err(Exception::StoreAddressMisaligned(addr));
        }
        match self.device_for(addr.0) {
            None => Err(Exception::StoreAccessFault),
            Some(i) => {
                let base = self.devices[i].0;
                assert(self@[i as int] == (self.devices@[i as int].0, self.devices@[i as int].1@));
                let bytes = item.to_le_bytes();
                proof {
                    lemma_u64_le_bytes_len(item.to_u64(), T::spec_size() as nat);
                }
                let dev = &mut self.devices[i];
                let res = dev.1.write(addr.0 - base, bytes.as_slice());
                match res {
                    Ok(_) => {
                        proof {
                            assert(self@ =~= prev.update(
                                i as int,
                                (
                                    base,
                                    store_bytes(
                                        prev[i as int].1,
                                        addr.0 - base,
                                        u64_le_bytes(item.to_u64(), T::spec_size() as nat),
                                    ),
                                ),
                            ));
                            lemma_wf_update(prev, self@, i as int);
                        }
                        Ok(())
                    },
                    Err(e) => {
                        proof {
                            assert(self@ =~= prev);
                        }
                        Err(e)
                    },
                }
            },
        }
    }

    /// Write raw bytes at the given address, with no alignment
    /// requirement. Used by program loaders.
    pub fn write_bytes(&mut self, addr: Address, buf: &[u8]) -> (r: core::result::Result<
        (),
        Exception,
    >)
        requires
            old(self).wf(),
        ensures
            final(self).wf(),
            match r {
                Ok(_) => spec_write_bytes(old(self)@, addr.0, buf@) == Ok::<
                    Seq<(u64, Seq<u8>)>,
                    Exception,
                >(final(self)@),
                Err(e) => spec_write_bytes(old(self)@, addr.0, buf@) == Err::<
                    Seq<(u64, Seq<u8>)>,
                    Exception,
                >(e) && final(self)@ == old(self)@,
            },
    {
        let ghost prev = self@;
        match self.device_for(addr.0) {
            None => Err(Exception::StoreAccessFault),
            Some(i) => {
                let base = self.devices[i].0;
                assert(self@[i as int] == (self.devices@[i as int].0, self.devices@[i as int].1@));
                let dev = &mut self.devices[i];
                let res = dev.1.write(addr.0 - base, buf);
                match res {
                    Ok(_) => {
                        proof {
                            assert(self@ =~= prev.update(
                                i as int,
                                (base, store_bytes(prev[i as int].1, addr.0 - base, buf@)),
                            ));
                            lemma_wf_update(prev, self@, i as int);
                        }
                        Ok(())
                    },
                    Err(e) => {
                        proof {
                            assert(self@ =~= prev);
                        }
                        Err(e)
                    },
                }
            },
        }
    }

    /// Write a program segment: `data` is stored at `addr` and then
    /// zero-filled up to `total` bytes, as an ELF loader requires.
    pub fn load_segment(&mut self, addr: Address, data: &[u8], total: usize) -> (r: core::result::Result<
        (),
        Exception,
    >)
        requires
            old(self).wf(),
            data@.len() <= total,
        ensures
            final(self).wf(),
            ({
                let padded = data@ + Seq::new((total - data@.len()) as nat, |i: int| 0u8);
                match r {
                    Ok(_) => spec_write_bytes(old(self)@, addr.0, padded) == Ok::<
                        Seq<(u64, Seq<u8>)>,
                        Exception,
                    >(final(self)@),
                    Err(e) => spec_write_bytes(old(self)@, addr.0, padded) == Err::<
                        Seq<(u64, Seq<u8>)>,
                        Exception,
                    >(e) && final(self)@ == old(self)@,
                }
            }),
    {
        let mut padded: Vec<u8> = Vec::new();
        let len = data.len();
        let mut i: usize = 0;
        while i < len
            invariant
                i <= len,
                len == data@.len(),
                padded@ == data@.subrange(0, i as int),
            decreases len - i,
        {
            let b = data[i];
            padded.push(b);
            proof {
                assert(padded@ =~= data@.subrange(0, i + 1));
            }
            i = i + 1;
        }
        while i < total
            invariant
                len <= i <= total,
                len == data@.len(),
                padded@.len() == i,
                padded@.subrange(0, len as int) == data@,
                forall|j: int| len <= j < i ==> padded@[j] == 0,
            decreases total - i,
        {
            padded.push(0);
            proof {
                assert(padded@.subrange(0, len as int) =~= data@);
            }
            i = i + 1;
        }
        proof {
            assert(padded@ =~= data@ + Seq::new((total - data@.len()) as nat, |j: int| 0u8));
        }
        self.write_bytes(addr, padded.as_slice())
    }
}

/// Updating one device's contents, keeping its base and length, keeps
/// the bus well formed.
proof fn lemma_wf_update(prev: Seq<(u64, Seq<u8>)>, cur: Seq<(u64, Seq<u8>)>, i: int)
    requires
        0 <= i < prev.len(),
        cur.len() == prev.len(),
        forall|j: int| 0 <= j < prev.len() && j != i ==> #[trigger] cur[j] == prev[j],
        cur[i].0 == prev[i].0,
        cur[i].1.len() == prev[i].1.len(),
        forall|k: int|
            0 <= k < prev.len() ==> (#[trigger] prev[k]).0 + prev[k].1.len() <= u64::MAX,
        forall|k: int, l: int|
            0 <= k < l < prev.len() ==> ((#[trigger] prev[k]).0 + prev[k].1.len()
                <= (#[trigger] prev[l]).0 || prev[l].0 + prev[l].1.len() <= prev[k].0),
    ensures
        forall|k: int| 0 <= k < cur.len() ==> (#[trigger] cur[k]).0 + cur[k].1.len() <= u64::MAX,
        forall|k: int, l: int|
            0 <= k < l < cur.len() ==> ((#[trigger] cur[k]).0 + cur[k].1.len()
                <= (#[trigger] cur[l]).0 || cur[l].0 + cur[l].1.len() <= cur[k].0),
{
    assert(forall|k: int|
        0 <= k < cur.len() ==> (#[trigger] cur[k]).0 == prev[k].0 && cur[k].1.len()
            == prev[k].1.len());
}


/// Read a `u64` out of up to eight little-endian bytes.
fn le_value_of(bytes: &[u8]) -> (r: u64)
    requires
        bytes@.len() <= 8,
    ensures
        r as nat == le_to_nat(bytes@),
{
    let n = bytes.len();
    let mut r: u64 = 0;
    let mut j: usize = n;
    proof {
        assert(bytes@.skip(n as int) =~= Seq::<u8>::empty());
    }
    while j > 0
        invariant
            j <= n,
            n == bytes@.len() <= 8,
            r as nat == le_to_nat(bytes@.skip(j as int)),
        decreases j,
    {
        proof {
            crate::bits::lemma_le_to_nat_bound(bytes@.skip(j as int));
            crate::bits::lemma_bytes_bound_mono(bytes@.skip(j as int).len(), 7);
            crate::bits::lemma_bytes_bound_values();
            assert(bytes@.skip(j - 1).skip(1) =~= bytes@.skip(j as int));
            assert(le_to_nat(bytes@.skip(j - 1)) == bytes@.skip(j - 1)[0] + 256 * le_to_nat(
                bytes@.skip(j - 1).skip(1),
            ));
            assert(bytes@.skip(j - 1)[0] == bytes@[j - 1]);
        }
        r = r * 256 + (bytes[j - 1] as u64);
        j = j - 1;
    }
    proof {
        assert(bytes@.skip(0) =~= bytes@);
    }
    r
}

/// Split a `u64` into its `n` low-order little-endian bytes.
fn le_bytes_of(v: u64, n: usize) -> (r: Vec<u8>)
    ensures
        r@ == u64_le_bytes(v, n as nat),
{
    let mut out: Vec<u8> = Vec::new();
    let mut x = v;
    let mut i: usize = 0;
    while i < n
        invariant
            i <= n,
            out@.len() == i,
            out@ + u64_le_bytes(x, (n - i) as nat) == u64_le_bytes(v, n as nat),
        decreases n - i,
    {
        let ghost prev_out = out@;
        let ghost prev_x = x;
        out.push((x % 256) as u8);
        x = x / 256;
        proof {
            assert(u64_le_bytes(prev_x, (n - i) as nat) == seq![(prev_x % 256) as u8]
                + u64_le_bytes(prev_x / 256, (n - i - 1) as nat));
            assert(out@ + u64_le_bytes(x, (n - i - 1) as nat) =~= prev_out + u64_le_bytes(
                prev_x,
                (n - i) as nat,
            ));
        }
        i = i + 1;
    }
    proof {
        assert(out@ + u64_le_bytes(x, 0) =~= out@);
    }
    out
}

impl MemoryData for u8 {
    open spec fn to_u64(self) -> u64 {
        self as u64
    }

    open spec fn spec_size() -> u64 {
        1
    }

    fn size() -> usize {
        1
    }

    fn from_le_bytes(bytes: &[u8]) -> (r: Self) {
        let v = le_value_of(bytes);
        proof {
            crate::bits::lemma_le_to_nat_bound(bytes@);
            crate::bits::lemma_bytes_bound_values();
        }
        v as u8
    }

    fn to_le_bytes(self) -> (r: Vec<u8>) {
        le_bytes_of(self as u64, 1)
    }
}

impl MemoryData for u16 {
    open spec fn to_u64(self) -> u64 {
        self as u64
    }

    open spec fn spec_size() -> u64 {
        2
    }

    fn size() -> usize {
        2
    }

    fn from_le_bytes(bytes: &[u8]) -> (r: Self) {
        let v = le_value_of(bytes);
        proof {
            crate::bits::lemma_le_to_nat_bound(bytes@);
            crate::bits::lemma_bytes_bound_values();
        }
        v as u16
    }

    fn to_le_bytes(self) -> (r: Vec<u8>) {
        le_bytes_of(self as u64, 2)
    }
}

impl MemoryData for u32 {
    open spec fn to_u64(self) -> u64 {
        self as u64
    }

    open spec fn spec_size() -> u64 {
        4
    }

    fn size() -> usize {
        4
    }

    fn from_le_bytes(bytes: &[u8]) -> (r: Self) {
        let v = le_value_of(bytes);
        proof {
            crate::bits::lemma_le_to_nat_bound(bytes@);
            crate::bits::lemma_bytes_bound_values();
        }
        v as u32
    }

    fn to_le_bytes(self) -> (r: Vec<u8>) {
        le_bytes_of(self as u64, 4)
    }
}

impl MemoryData for u64 {
    open spec fn to_u64(self) -> u64 {
        self
    }

    open spec fn spec_size() -> u64 {
        8
    }

    fn size() -> usize {
        8
    }

    fn from_le_bytes(bytes: &[u8]) -> (r: Self) {
        le_value_of(bytes)
    }

    fn to_le_bytes(self) -> (r: Vec<u8>) {
        le_bytes_of(self, 8)
    }
}

} // verus!
