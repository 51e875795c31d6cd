use vstd::prelude::*;

use crate::memory::store_bytes;
use crate::trap::Exception;

verus! {

/// A device which acts as a RAM module containing a fixed buffer of memory.
#[derive(Debug, Clone)]
pub struct RamDevice {
    /// The backing buffer of bytes.
    pub ram: Vec<u8>,
}

impl View for RamDevice {
    type V = Seq<u8>;

    open spec fn view(&self) -> Seq<u8> {
        self.ram@
    }
}

impl RamDevice {
    /// Create a new RAM device that is able to hold `size` bytes of memory.
    pub fn new(size: usize) -> (r: Self)
        ensures
            r@.len() == size,
            forall|i: int| 0 <= i < size ==> r@[i] == 0,
    {
        let mut ram: Vec<u8> = Vec::new();
        let mut i: usize = 0;
        while i < size
            invariant
                i <= size,
                ram@.len() == i,
                forall|j: int| 0 <= j < i ==> ram@[j] == 0,
            decreases size - i,
        {
            ram.push(0);
            i = i + 1;
        }
        RamDevice { ram }
    }

    /// Create a RAM device that is initialized using the given vec.
    pub fn from_vec(vec: Vec<u8>) -> (r: Self)
        ensures
            r@ == vec@,
    {
        RamDevice { ram: vec }
    }

    /// The number of bytes this device covers, starting from its base.
    pub fn size(&self) -> (r: u64)
        ensures
            r == self@.len(),
    {
        self.ram.len() as u64
    }

    /// Read `len` bytes starting at the device-relative offset `off`.
    ///
    /// Fails with a load access fault when the requested range does
    /// not lie entirely inside the device.
    pub fn load(&self, off: u64, len: usize) -> (r: core::result::Result<Vec<u8>, Exception>)
        ensures
            match r {
                Ok(b) => off + len <= self@.len() && b@ == self@.subrange(
                    off as int,
                    off as int + len as int,
                ),
                Err(e) => off + len > self@.len() && e == Exception::LoadAccessFault,
            },
    {
        if off <= self.ram.len() as u64 && len as u64 <= self.ram.len() as u64 - off {
            let start = off as usize;
            let mut out: Vec<u8> = Vec::new();
            let mut i: usize = 0;
            while i < len
                invariant
                    i <= len,
                    start == off,
                    start + len <= self.ram@.len(),
                    start + len <= usize::MAX,
                    out@.len() == i,
                    forall|j: int| 0 <= j < i ==> out@[j] == self.ram@[start + j],
                decreases len - i,
            {
                out.push(self.ram[start + i]);
                i = i + 1;
            }
            proof {
                assert(out@ =~= self@.subrange(off as int, off as int + len as int));
            }
            Ok(out)
        } else {
            Err(Exception::LoadAccessFault)
        }
    }

    /// Write the contents of `buf` at the device-relative offset `off`.
    ///
    /// Fails with a store access fault, leaving the device unchanged,
    /// when the target range does not lie entirely inside the device.
    pub fn write(&mut self, off: u64, buf: &[u8]) -> (r: core::result::Result<(), Exception>)
        ensures
            match r {
                Ok(_) => off + buf@.len() <= old(self)@.len() && final(self)@ == store_bytes(
                    old(self)@,
                    off as int,
                    buf@,
                ),
                Err(e) => off + buf@.len() > old(self)@.len() && e == Exception::StoreAccessFault
                    && final(self)@ == old(self)@,
            },
    {
        let len = buf.len();
        if off <= self.ram.len() as u64 && len as u64 <= self.ram.len() as u64 - off {
            let start = off as usize;
            let mut i: usize = 0;
            while i < len
                invariant
                    i <= len,
                    start == off,
                    buf@.len() == len,
                    start + len <= self.ram@.len(),
                    start + len <= usize::MAX,
                    self.ram@.len() == old(self).ram@.len(),
                    forall|j: int|
                        0 <= j < self.ram@.len() && !(start <= j < start + i) ==> self.ram@[j]
                            == old(self).ram@[j],
                    forall|j: int| start <= j < start + i ==> self.ram@[j] == buf@[j - start],
                decreases len - i,
            {
                self.ram.set(start + i, buf[i]);
                i = i + 1;
            }
            proof {
                assert(self@ =~= store_bytes(old(self)@, off as int, buf@));
            }
            Ok(())
        } else {
            Err(Exception::StoreAccessFault)
        }
    }
}

} // verus!
