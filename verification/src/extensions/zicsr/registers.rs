use vstd::prelude::*;

use crate::cpu::PrivilegeMode;

verus! {

/// An index into the list of CSR inside the Zicsr extension.
#[derive(Clone, Copy, Debug, PartialEq, Eq, Structural)]
pub struct CsrAddress(pub u16);

/// Whether the CSR number `csr` may be read from `mode`: bits 8..10 of
/// the number give the lowest privilege mode that may access it, where
/// the reserved pattern `0b10` grants access to no implemented mode.
pub open spec fn spec_readable_in(csr: u16, mode: PrivilegeMode) -> bool {
    if (csr >> 8) & 0b11 == 0b00 {
        mode.spec_can_access(PrivilegeMode::User)
    } else if (csr >> 8) & 0b11 == 0b01 {
        mode.spec_can_access(PrivilegeMode::Supervisor)
    } else if (csr >> 8) & 0b11 == 0b11 {
        mode.spec_can_access(PrivilegeMode::Machine)
    } else {
        false
    }
}

/// Whether the CSR number `csr` may be written from `mode`: as for
/// reading, except that numbers whose bits 10..12 are `0b11` are
/// read-only for every mode.
pub open spec fn spec_writeable_in(csr: u16, mode: PrivilegeMode) -> bool {
    if csr >> 10 == 0b11 {
        false
    } else {
        spec_readable_in(csr, mode)
    }
}

impl CsrAddress {
    /// Try to create a new [`CsrAddress`]. Returns `None` if the given
    /// index is out of bounds.
    pub fn try_new(idx: usize) -> (r: Option<Self>)
        ensures
            match r {
                Some(a) => idx < CSR_COUNT && a.0 == idx,
                None => idx >= CSR_COUNT,
            },
    {
        if idx < CSR_COUNT {
            Some(CsrAddress(idx as u16))
        } else {
            None
        }
    }

    /// Check if this CSR can be read from the given privilege mode.
    pub fn readable_in(self, mode: PrivilegeMode) -> (r: bool)
        ensures
            r == spec_readable_in(self.0, mode),
    {
        if (self.0 >> 8) & 0b11 == 0b00 {
            mode.can_access(PrivilegeMode::User)
        } else if (self.0 >> 8) & 0b11 == 0b01 {
            mode.can_access(PrivilegeMode::Supervisor)
        } else if (self.0 >> 8) & 0b11 == 0b11 {
            mode.can_access(PrivilegeMode::Machine)
        } else {
            false
        }
    }

    /// Check if this CSR can be written to from the given privilege mode.
    pub fn writeable_in(self, mode: PrivilegeMode) -> (r: bool)
        ensures
            r == spec_writeable_in(self.0, mode),
    {
        if self.0 >> 10 == 0b11 {
            return false;
        }
        self.readable_in(mode)
    }
}

/// Readability of a CSR is monotone in the privilege mode: whatever a
/// mode may read, every mode that can access it may read as well, and
/// likewise for writing.
pub proof fn lemma_access_monotone(csr: CsrAddress, lo: PrivilegeMode, hi: PrivilegeMode)
    requires
        hi.spec_can_access(lo),
    ensures
        spec_readable_in(csr.0, lo) ==> spec_readable_in(csr.0, hi),
        spec_writeable_in(csr.0, lo) ==> spec_writeable_in(csr.0, hi),
{
}

/// Number of CSR registers available.
pub const CSR_COUNT: usize = 4096;

/// This bit mask can be applied to the MSTATUS register, to get all
/// bits that are valid in the SSTATUS register.
pub const SSTATUS_MASK: u64 = 0x80000003000de162;

/// The bits of [`SSTATUS_MASK`] that exist on a 32-bit hart.
pub const SSTATUS_MASK_LOW: u32 = 0x000d_e162;

/// User status register.
pub const USTATUS: u16 = 0x000;

/// User interrupt-enable register.
pub const UIE: u16 = 0x004;

/// User trap handler base address.
pub const UTVEC: u16 = 0x005;

/// Scratch register for user trap handlers.
pub const USCRATCH: u16 = 0x040;

/// User exception program counter.
pub const UEPC: u16 = 0x041;

/// User trap cause.
pub const UCAUSE: u16 = 0x042;

/// User bad address or instruction.
pub const UTVAL: u16 = 0x043;

/// User interrupt pending.
pub const UIP: u16 = 0x044;

/// Floating-Point Accrued Exceptions.
pub const FFLAGS: u16 = 0x001;

/// Floating-Point Dynamic Rounding Mode.
pub const FRM: u16 = 0x002;

/// Floating-Point Control and Status Register (frm+fflags).
pub const FCSR: u16 = 0x003;

/// Cycle counter for RDCYCLE instruction.
pub const CYCLE: u16 = 0xC00;

/// Timer for RDTIME instruction.
pub const TIME: u16 = 0xC01;

/// Instructions-retired counter for RDINSTRET instruction.
pub const INSTRET: u16 = 0xC02;

/// Performance-monitoring counter.
pub const HPMCOUNTER3: u16 = 0xC03;

/// Performance-monitoring counter.
pub const HPMCOUNTER4: u16 = 0xC04;

/// Performance-monitoring counter.
pub const HPMCOUNTER31: u16 = 0xC1F;

/// Upper 32 bits of cycle, RV32I only.
pub const CYCLEH: u16 = 0xC80;

/// Upper 32 bits of time, RV32I only.
pub const TIMEH: u16 = 0xC81;

/// Upper 32 bits of instret, RV32I only.
pub const INSTRETH: u16 = 0xC82;

/// Upper 32 bits of hpmcounter3, RV32I only.
pub const HPMCOUNTER3H: u16 = 0xC83;

/// Upper 32 bits of hpmcounter4, RV32I only.
pub const HPMCOUNTER4H: u16 = 0xC84;

/// Upper 32 bits of hpmcounter31, RV32I only.
pub const HPMCOUNTER31H: u16 = 0xC9F;

/// Supervisor status register.
pub const SSTATUS: u16 = 0x100;

/// Supervisor exception delegation register.
pub const SEDELEG: u16 = 0x102;

/// Supervisor interrupt delegation register.
pub const SIDELEG: u16 = 0x103;

/// Supervisor interrupt-enable register.
pub const SIE: u16 = 0x104;

/// Supervisor trap handler base address.
pub const STVEC: u16 = 0x105;

/// Supervisor counter enable.
pub const SCOUNTEREN: u16 = 0x106;

/// Scratch register for supervisor trap handlers.
pub const SSCRATCH: u16 = 0x140;

/// Supervisor exception program counter.
pub const SEPC: u16 = 0x141;

/// Supervisor trap cause.
pub const SCAUSE: u16 = 0x142;

/// Supervisor bad address or instruction.
pub const STVAL: u16 = 0x143;

/// Supervisor interrupt pending.
pub const SIP: u16 = 0x144;

/// Supervisor address translation and protection.
pub const SATP: u16 = 0x180;

/// Vendor ID.
pub const MVENDORID: u16 = 0xF11;

/// Architecture ID.
pub const MARCHID: u16 = 0xF12;

/// Implementation ID.
pub const MIMPID: u16 = 0xF13;

/// Hardware thread ID.
pub const MHARTID: u16 = 0xF14;

/// Machine status register.
pub const MSTATUS: u16 = 0x300;

/// ISA and extensions.
pub const MISA: u16 = 0x301;

/// Machine exception delegation register.
pub const MEDELEG: u16 = 0x302;

/// Machine interrupt delegation register.
pub const MIDELEG: u16 = 0x303;

/// Machine interrupt-enable register.
pub const MIE: u16 = 0x304;

/// Machine trap-handler base address.
pub const MTVEC: u16 = 0x305;

/// Machine counter enable.
pub const MCOUNTEREN: u16 = 0x306;

/// Scratch register for machine trap handlers.
pub const MSCRATCH: u16 = 0x340;

/// Machine exception program counter.
pub const MEPC: u16 = 0x341;

/// Machine trap cause.
pub const MCAUSE: u16 = 0x342;

/// Machine bad address or instruction.
pub const MTVAL: u16 = 0x343;

/// Machine interrupt pending.
pub const MIP: u16 = 0x344;

/// Physical memory protection configuration.
pub const PMPCFG0: u16 = 0x3A0;

/// Physical memory protection configuration, RV32 only.
pub const PMPCFG1: u16 = 0x3A1;

/// Physical memory protection configuration.
pub const PMPCFG2: u16 = 0x3A2;

/// Physical memory protection configuration, RV32 only.
pub const PMPCFG3: u16 = 0x3A3;

/// Physical memory protection address register.
pub const PMPADDR0: u16 = 0x3B0;

/// Physical memory protection address register.
pub const PMPADDR1: u16 = 0x3B1;

/// Physical memory protection address register.
pub const PMPADDR2: u16 = 0x3B2;

/// Physical memory protection address register.
pub const PMPADDR3: u16 = 0x3B3;

} // verus!
