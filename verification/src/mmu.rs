//! Implementation of the Memory Management Unit which is used for
//! virtual memory: the Sv32 two-level page walk with its permission
//! checks and SUM/MXR/MPRV semantics.

use vstd::prelude::*;

use crate::cpu::{spec_from_bits, Cpu, CpuState, PrivilegeMode};
use crate::extensions::zicsr::registers::{MSTATUS, SATP};
use crate::extensions::zicsr::spec_force_read;
use crate::memory::spec_read_bus;
use crate::trap::Exception;
use crate::Address;

verus! {

/// Different access types that memory can be accessed for.
#[derive(Debug, Clone, Copy, PartialEq, Eq, Structural)]
pub enum AccessType {
    /// Read memory.
    Read,
    /// Write to memory.
    Write,
    /// Fetch an instruction.
    Fetch,
}

/// The page fault that a failed translation of `addr` raises for the
/// given access type.
pub open spec fn spec_fault(acc: AccessType, addr: u64) -> Exception {
    match acc {
        AccessType::Read => Exception::LoadPageFault(Address(addr)),
        AccessType::Write => Exception::StorePageFault(Address(addr)),
        AccessType::Fetch => Exception::InstructionPageFault(Address(addr)),
    }
}

/// Representation of a page table entry.
#[derive(Debug, Clone, Copy, PartialEq, Eq, Structural)]
pub enum Entry {
    /// This entry points to the next page table level.
    Branch(Address),
    /// Translation was successful and the physical address was found.
    Leaf {
        /// The physical page number, already shifted into an address.
        ppn: Address,
        /// The raw entry, whose low bits carry the permissions.
        entry: u64,
    },
}

/// The decoded form of a raw PTE: `None` when the entry is invalid
/// (V clear, or W set without R), a leaf when R or X is set, and a
/// branch to the next level otherwise.
pub open spec fn spec_entry_parse(x: u64) -> Option<Entry> {
    if x & 0x1 == 0 || (x & 0x2 == 0 && x & 0x4 != 0) {
        None
    } else if x & 0x2 != 0 || x & 0x8 != 0 {
        Some(Entry::Leaf { ppn: Address((x >> 10) << 12), entry: x })
    } else {
        Some(Entry::Branch(Address((x >> 10) << 12)))
    }
}

impl Entry {
    /// Parse a raw PTE into a better representation.
    pub fn parse(x: u64) -> (r: Option<Entry>)
        ensures
            r == spec_entry_parse(x),
    {
        if x & 0x1 == 0 || (x & 0x2 == 0 && x & 0x4 != 0) {
            None
        } else if x & 0x2 != 0 || x & 0x8 != 0 {
            Some(Entry::Leaf { ppn: Address((x >> 10) << 12), entry: x })
        } else {
            Some(Entry::Branch(Address((x >> 10) << 12)))
        }
    }
}

/// The page table base selected by `satp`, or `None` when translation
/// is off: bare mode (the MODE bit clear) or an effective machine-mode
/// access.
pub open spec fn spec_decode_satp(satp: u32, prv: PrivilegeMode) -> Option<u64> {
    if prv == PrivilegeMode::Machine || satp & 0x8000_0000 == 0 {
        None
    } else {
        Some((((satp & 0x003F_FFFF) as u64) << 12) as u64)
    }
}

fn decode_satp(satp: u32, prv: PrivilegeMode) -> (r: Option<u64>)
    ensures
        r == spec_decode_satp(satp, prv),
{
    if prv == PrivilegeMode::Machine || satp & 0x8000_0000 == 0 {
        None
    } else {
        Some(((satp & 0x003F_FFFF) as u64) << 12)
    }
}

/// Whether a leaf PTE permits the access: R (or X under MXR) for
/// reads, W for writes, X for fetches; U-pages are denied to S-mode
/// for fetches and, unless SUM is set, for data accesses, and pages
/// without U are denied to U-mode; a clear A bit denies every access
/// and a clear D bit denies writes.
pub open spec fn spec_check_leaf(mstatus: u32, prv: PrivilegeMode, acc: AccessType, entry: u64) -> bool {
    let allowed = match acc {
        AccessType::Read => entry & 0x2 != 0 || (entry & 0x8 != 0 && mstatus & 0x8_0000 != 0),
        AccessType::Write => entry & 0x4 != 0,
        AccessType::Fetch => entry & 0x8 != 0,
    };
    let allowed = if entry & 0x10 != 0 && prv == PrivilegeMode::Supervisor && (acc
        == AccessType::Fetch || mstatus & 0x4_0000 == 0) {
        false
    } else {
        allowed
    };
    let allowed = if prv == PrivilegeMode::User && entry & 0x10 == 0 {
        false
    } else {
        allowed
    };
    let allowed = if entry & 0x40 == 0 {
        false
    } else {
        allowed
    };
    if acc == AccessType::Write && entry & 0x80 == 0 {
        false
    } else {
        allowed
    }
}

fn check_leaf(mstatus: u32, prv: PrivilegeMode, acc: AccessType, entry: u64) -> (r: bool)
    ensures
        r == spec_check_leaf(mstatus, prv, acc, entry),
{
    let allowed = match acc {
        AccessType::Read => entry & 0x2 != 0 || (entry & 0x8 != 0 && mstatus & 0x8_0000 != 0),
        AccessType::Write => entry & 0x4 != 0,
        AccessType::Fetch => entry & 0x8 != 0,
    };
    let allowed = if entry & 0x10 != 0 && prv == PrivilegeMode::Supervisor && (acc
        == AccessType::Fetch || mstatus & 0x4_0000 == 0) {
        false
    } else {
        allowed
    };
    let allowed = if prv == PrivilegeMode::User && entry & 0x10 == 0 {
        false
    } else {
        allowed
    };
    let allowed = if entry & 0x40 == 0 {
        false
    } else {
        allowed
    };
    if acc == AccessType::Write && entry & 0x80 == 0 {
        false
    } else {
        allowed
    }
}

/// The effective privilege of an access: the current mode, unless the
/// access is a data access under `mstatus.MPRV`, in which case the
/// mode stored in `mstatus.MPP` applies.
pub open spec fn spec_effective_prv(s: CpuState, acc: AccessType) -> PrivilegeMode {
    let mstatus = spec_force_read(s.csrs, MSTATUS);
    if acc != AccessType::Fetch && mstatus & 0x2_0000 != 0 {
        spec_from_bits(((mstatus >> 11) & 0b11) as u8)
    } else {
        s.mode
    }
}

/// The outcome of translating `addr` for the given access type in
/// state `s`: the physical address when translation is off or the
/// two-level Sv32 walk reaches a permitted leaf; the matching page
/// fault when a PTE is invalid, the permissions deny the access, or
/// the walk ends on a branch; and the raw access fault when a PTE
/// cannot be read from physical memory.
pub open spec fn spec_translate(s: CpuState, addr: u64, acc: AccessType) -> core::result::Result<
    u64,
    Exception,
> {
    let mstatus = spec_force_read(s.csrs, MSTATUS);
    let prv = spec_effective_prv(s, acc);
    let satp = spec_force_read(s.csrs, SATP);
    match spec_decode_satp(satp, prv) {
        None => Ok(addr),
        Some(table) => {
            let va = addr as u32;
            let vpn1 = (va >> 22) & 0x3FF;
            match spec_read_bus(s.mem, (table + vpn1 * 4) as u64, 4) {
                Err(e) => Err(e),
                Ok(p1) => match spec_entry_parse(p1) {
                    None => Err(spec_fault(acc, addr)),
                    Some(Entry::Leaf { ppn, entry }) => {
                        if spec_check_leaf(mstatus, prv, acc, entry) {
                            Ok((ppn.0 + (va & 0x3F_FFFF)) as u64)
                        } else {
                            Err(spec_fault(acc, addr))
                        }
                    },
                    Some(Entry::Branch(next)) => {
                        let vpn0 = (va >> 12) & 0x3FF;
                        match spec_read_bus(s.mem, (next.0 + vpn0 * 4) as u64, 4) {
                            Err(e) => Err(e),
                            Ok(p0) => match spec_entry_parse(p0) {
                                None => Err(spec_fault(acc, addr)),
                                Some(Entry::Leaf { ppn, entry }) => {
                                    if spec_check_leaf(mstatus, prv, acc, entry) {
                                        Ok((ppn.0 + (va & 0xFFF)) as u64)
                                    } else {
                                        Err(spec_fault(acc, addr))
                                    }
                                },
                                Some(Entry::Branch(_)) => Err(spec_fault(acc, addr)),
                            },
                        }
                    },
                },
            }
        },
    }
}

/// The bounds of the fields an Sv32 walk extracts: page-table bases
/// and physical page numbers stay far below the 64-bit address space,
/// so the walk's address arithmetic cannot wrap.
proof fn lemma_mmu_bounds(satp: u32, pte: u64, va: u32)
    by (bit_vector)
    ensures
        ((satp & 0x003F_FFFF) as u64) << 12 <= 0x3F_FFFF_F000,
        pte < 0x1_0000_0000 ==> (pte >> 10) << 12 <= 0x3F_FFFF_F000,
        (va >> 22) & 0x3FF <= 0x3FF,
        (va >> 12) & 0x3FF <= 0x3FF,
        va & 0x3F_FFFF <= 0x3F_FFFF,
        va & 0xFFF <= 0xFFF,
{
}

/// The memory management unit of a RISC-V hart.
#[derive(Debug)]
pub struct Mmu {

}

impl Mmu {
    /// Create a new Memory Management Unit.
    pub fn new() -> Mmu {
        Mmu {  }
    }

    /// Translate a virtual address to a physical address, by walking
    /// the page table named by `satp` using the given access type.
    pub fn translate(&self, cpu: &Cpu, addr: Address, mode: AccessType) -> (r: core::result::Result<
        Address,
        Exception,
    >)
        requires
            cpu.wf(),
        ensures
            match r {
                Ok(a) => spec_translate(cpu@, addr.0, mode) == Ok::<u64, Exception>(a.0),
                Err(e) => spec_translate(cpu@, addr.0, mode) == Err::<u64, Exception>(e),
            },
    {
        let mstatus = cpu.arch.zicsr.force_read_u32(MSTATUS);

        // if the access is a load or store and the MPRV bit is set,
        // the privilege mode in the MPP field applies instead
        let prv = if mode != AccessType::Fetch && mstatus & 0x2_0000 != 0 {
            PrivilegeMode::from_bits_any(#[verifier::truncate] (((mstatus >> 11) & 0b11) as u8))
        } else {
            cpu.mode()
        };

        let satp = cpu.arch.zicsr.force_read_u32(SATP);
        let table = match decode_satp(satp, prv) {
            Some(table) => table,
            None => {
                return Ok(addr);
            },
        };

        let va = addr.0 as u32;
        proof {
            lemma_mmu_bounds(satp, 0, va);
        }

        // walk the first level of the page table
        let vpn1 = (va >> 22) & 0x3FF;
        let pte1 = match cpu.read::<u32>(Address(table + (vpn1 as u64) * 4)) {
            Ok(x) => x,
            Err(e) => {
                return Err(e);
            },
        };
        proof {
            lemma_mmu_bounds(satp, pte1 as u64, va);
        }
        match Entry::parse(pte1 as u64) {
            None => Err(self.fault(mode, addr)),
            Some(Entry::Leaf { ppn, entry }) => {
                if check_leaf(mstatus, prv, mode, entry) {
                    Ok(Address(ppn.0 + ((va & 0x3F_FFFF) as u64)))
                } else {
                    Err(self.fault(mode, addr))
                }
            },
            Some(Entry::Branch(next)) => {
                // walk the second level of the page table
                let vpn0 = (va >> 12) & 0x3FF;
                let pte0 = match cpu.read::<u32>(Address(next.0 + (vpn0 as u64) * 4)) {
                    Ok(x) => x,
                    Err(e) => {
                        return Err(e);
                    },
                };
                proof {
                    lemma_mmu_bounds(satp, pte0 as u64, va);
                }
                match Entry::parse(pte0 as u64) {
                    None => Err(self.fault(mode, addr)),
                    Some(Entry::Leaf { ppn, entry }) => {
                        if check_leaf(mstatus, prv, mode, entry) {
                            Ok(Address(ppn.0 + ((va & 0xFFF) as u64)))
                        } else {
                            Err(self.fault(mode, addr))
                        }
                    },
                    Some(Entry::Branch(_)) => Err(self.fault(mode, addr)),
                }
            },
        }
    }

    /// The page fault raised when translating `addr` for the given
    /// access type fails.
    fn fault(&self, mode: AccessType, addr: Address) -> (r: Exception)
        ensures
            r == spec_fault(mode, addr.0),
    {
        match mode {
            AccessType::Read => Exception::LoadPageFault(addr),
            AccessType::Write => Exception::StorePageFault(addr),
            AccessType::Fetch => Exception::InstructionPageFault(addr),
        }
    }

    /// Check if the access of `len` bytes at `addr` is valid according
    /// to the PMP. Physical memory protection is a stub on this hart:
    /// every access passes.
    #[allow(dead_code)]
    fn check_pmp(addr: Address, len: usize, mode: AccessType, prv: PrivilegeMode) -> (r: bool)
        ensures
            r,
    {
        let _ = (addr, len, mode, prv);
        true
    }
}

} // verus!
