//! Implementation of the `Zicsr` extension: the 4096-slot control-and-
//! status register file with privilege-aware access checks, the S-mode
//! view registers, and the CSR instructions themselves.

pub mod registers;

pub use registers::CsrAddress;
pub use registers as csr;

use vstd::prelude::*;

use crate::cpu::{spec_from_bits, Continuation, Cpu, CpuState, PrivilegeMode};
use crate::extensions::rv32i::exec::{read_reg, reg, upd_reg, write_rd};
use crate::extensions::rv32i::parse::{spec_parse_i, spec_parse_r};
use crate::instruction::{IType, RType};
use crate::trap::Exception;
use crate::Address;

use registers::{
    CSR_COUNT, MEPC, MIDELEG, MIE, MIP, MISA, MSTATUS, SATP, SEPC, SIE, SIP, SSTATUS,
    SSTATUS_MASK, SSTATUS_MASK_LOW,
};

verus! {

/// The contents of a freshly reset CSR file: every register zero but
/// `misa`, which advertises a 32-bit base ISA with the I extension and
/// with U and S modes implemented.
pub open spec fn spec_new_32bit() -> Seq<u32> {
    Seq::new(CSR_COUNT as nat, |i: int| 0u32).update(MISA as int, MISA_RESET)
}

/// The reset value of `misa`: a 32-bit base (bit 30), U mode (bit 20),
/// S mode (bit 18) and the RV32I base ISA (bit 8).
pub const MISA_RESET: u32 = 0x4014_0100;

/// The value a forced read of `csr` yields from the file `csrs`:
/// `sstatus`, `sie` and `sip` are masked views of their M-mode
/// counterparts, every other number reads its own cell.
pub open spec fn spec_force_read(csrs: Seq<u32>, csr: u16) -> u32 {
    if csr == SSTATUS {
        csrs[MSTATUS as int] & SSTATUS_MASK_LOW
    } else if csr == SIE {
        csrs[MIE as int] & csrs[MIDELEG as int]
    } else if csr == SIP {
        csrs[MIP as int] & csrs[MIDELEG as int]
    } else {
        csrs[csr as int]
    }
}

/// The file after a forced write of `val` to `csr`: writes to
/// `sstatus`, `sie` and `sip` change only the masked bits of their
/// M-mode counterparts, every other number stores the value itself.
pub open spec fn spec_force_write(csrs: Seq<u32>, csr: u16, val: u32) -> Seq<u32> {
    if csr == SSTATUS {
        csrs.update(
            MSTATUS as int,
            (csrs[MSTATUS as int] & !SSTATUS_MASK_LOW) | (val & SSTATUS_MASK_LOW),
        )
    } else if csr == SIE {
        csrs.update(
            MIE as int,
            (csrs[MIE as int] & !csrs[MIDELEG as int]) | (val & csrs[MIDELEG as int]),
        )
    } else if csr == SIP {
        csrs.update(
            MIP as int,
            (csrs[MIP as int] & !csrs[MIDELEG as int]) | (val & csrs[MIDELEG as int]),
        )
    } else {
        csrs.update(csr as int, val)
    }
}

/// The outcome of a privilege-checked read of `csr` from `mode`:
/// `IllegalInstruction(0)` when the number is not readable in that
/// mode, or when it is `satp` read from S-mode under `mstatus.TVM`.
pub open spec fn spec_read_csr(csrs: Seq<u32>, csr: u16, mode: PrivilegeMode) -> core::result::Result<
    u32,
    Exception,
> {
    if !registers::spec_readable_in(csr, mode) {
        Err(Exception::IllegalInstruction(0))
    } else if csr == SATP && mode == PrivilegeMode::Supervisor && csrs[MSTATUS as int] & 0x10_0000
        != 0 {
        Err(Exception::IllegalInstruction(0))
    } else {
        Ok(spec_force_read(csrs, csr))
    }
}

/// The outcome of a privilege-checked write of `val` to `csr` from
/// `mode`: `IllegalInstruction(0)` when the number is read-only or not
/// accessible in that mode, or when it is `satp` written from S-mode
/// under `mstatus.TVM`.
pub open spec fn spec_write_csr(
    csrs: Seq<u32>,
    csr: u16,
    val: u32,
    mode: PrivilegeMode,
) -> core::result::Result<Seq<u32>, Exception> {
    if !registers::spec_writeable_in(csr, mode) {
        Err(Exception::IllegalInstruction(0))
    } else if csr == SATP && mode == PrivilegeMode::Supervisor && csrs[MSTATUS as int] & 0x10_0000
        != 0 {
        Err(Exception::IllegalInstruction(0))
    } else {
        Ok(spec_force_write(csrs, csr, val))
    }
}

/// Reading `sstatus` yields exactly the `SSTATUS_MASK`-filtered value
/// of `mstatus`, whatever the file holds.
pub proof fn lemma_sstatus_view(csrs: Seq<u32>)
    ensures
        spec_force_read(csrs, SSTATUS) as u64 == (spec_force_read(csrs, MSTATUS) as u64)
            & SSTATUS_MASK,
{
    let m = csrs[MSTATUS as int];
    assert((m & SSTATUS_MASK_LOW) as u64 == (m as u64) & SSTATUS_MASK) by (bit_vector);
}

/// The Zicsr extension.
#[derive(Debug)]
pub struct Extension {
    /// The 4096 control-and-status registers, indexed by CSR number.
    pub csrs: Vec<u32>,
}

impl View for Extension {
    type V = Seq<u32>;

    open spec fn view(&self) -> Seq<u32> {
        self.csrs@
    }
}

impl Extension {
    /// The file holds one cell for every 12-bit CSR number.
    pub open spec fn wf(self) -> bool {
        self.csrs@.len() == CSR_COUNT
    }

    /// Create a new `Zicsr` extension that will store 32-bit wide CSR.
    pub fn new_32bit() -> (r: Self)
        ensures
            r.wf(),
            r@ == spec_new_32bit(),
    {
        let mut csrs: Vec<u32> = Vec::new();
        let mut i: usize = 0;
        while i < CSR_COUNT
            invariant
                i <= CSR_COUNT,
                csrs@.len() == i,
                forall|j: int| 0 <= j < i ==> csrs@[j] == 0,
            decreases CSR_COUNT - i,
        {
            csrs.push(0);
            i = i + 1;
        }
        let mut this = Extension { csrs };
        this.force_write_csr(CsrAddress(MISA), Address(MISA_RESET as u64));
        proof {
            assert(this@ =~= spec_new_32bit());
        }
        this
    }

    /// Try to write the given `val` to the CSR with the given index.
    pub fn write_csr(&mut self, csr: CsrAddress, val: Address, mode: PrivilegeMode) -> (r: core::result::Result<
        (),
        Exception,
    >)
        requires
            old(self).wf(),
            csr.0 < CSR_COUNT,
        ensures
            final(self).wf(),
            match r {
                Ok(_) => spec_write_csr(old(self)@, csr.0, val.0 as u32, mode) == Ok::<
                    Seq<u32>,
                    Exception,
                >(final(self)@),
                Err(e) => spec_write_csr(old(self)@, csr.0, val.0 as u32, mode) == Err::<
                    Seq<u32>,
                    Exception,
                >(e) && final(self)@ == old(self)@,
            },
            csr.0 >> 10 == 0b11 ==> r == Err::<(), Exception>(Exception::IllegalInstruction(0)),
    {
        if !csr.writeable_in(mode) {
            return Err(Exception::IllegalInstruction(0));
        }
        if csr.0 == SATP && mode == PrivilegeMode::Supervisor {
            let mstatus = self.csrs[MSTATUS as usize];
            if mstatus & 0x10_0000 != 0 {
                return Err(Exception::IllegalInstruction(0));
            }
        }
        self.force_write_csr(csr, val);
        Ok(())
    }

    /// Try to read a given CSR.
    pub fn read_csr(&self, csr: CsrAddress, mode: PrivilegeMode) -> (r: core::result::Result<
        Address,
        Exception,
    >)
        requires
            self.wf(),
            csr.0 < CSR_COUNT,
        ensures
            match r {
                Ok(v) => spec_read_csr(self@, csr.0, mode) == Ok::<u32, Exception>(v.0 as u32) && v.0
                    < 0x1_0000_0000,
                Err(e) => spec_read_csr(self@, csr.0, mode) == Err::<u32, Exception>(e),
            },
    {
        if !csr.readable_in(mode) {
            return Err(Exception::IllegalInstruction(0));
        }
        if csr.0 == SATP && mode == PrivilegeMode::Supervisor {
            let mstatus = self.csrs[MSTATUS as usize];
            if mstatus & 0x10_0000 != 0 {
                return Err(Exception::IllegalInstruction(0));
            }
        }
        Ok(self.force_read_csr(csr))
    }

    /// Write the given `val` to the CSR with the given index, without
    /// checking permissions. Values are truncated to the 32-bit
    /// register width.
    pub fn force_write_csr(&mut self, csr: CsrAddress, val: Address)
        requires
            old(self).wf(),
            csr.0 < CSR_COUNT,
        ensures
            final(self).wf(),
            final(self)@ == spec_force_write(old(self)@, csr.0, val.0 as u32),
    {
        let v = val.0 as u32;
        if csr.0 == SSTATUS {
            let m = self.csrs[MSTATUS as usize];
            self.csrs.set(MSTATUS as usize, (m & !SSTATUS_MASK_LOW) | (v & SSTATUS_MASK_LOW));
        } else if csr.0 == SIE {
            let mideleg = self.csrs[MIDELEG as usize];
            let mie = self.csrs[MIE as usize];
            self.csrs.set(MIE as usize, (mie & !mideleg) | (v & mideleg));
        } else if csr.0 == SIP {
            let mideleg = self.csrs[MIDELEG as usize];
            let mip = self.csrs[MIP as usize];
            self.csrs.set(MIP as usize, (mip & !mideleg) | (v & mideleg));
        } else {
            self.csrs.set(csr.0 as usize, v);
        }
    }

    /// Read a given CSR without checking permissions.
    pub fn force_read_csr(&self, csr: CsrAddress) -> (r: Address)
        requires
            self.wf(),
            csr.0 < CSR_COUNT,
        ensures
            r.0 == spec_force_read(self@, csr.0),
            r.0 < 0x1_0000_0000,
    {
        Address(self.force_read_u32(csr.0) as u64)
    }

    /// Read a given CSR number without checking permissions, as the
    /// raw 32-bit cell value.
    pub(crate) fn force_read_u32(&self, csr: u16) -> (r: u32)
        requires
            self.wf(),
            csr < CSR_COUNT,
        ensures
            r == spec_force_read(self@, csr),
    {
        if csr == SSTATUS {
            self.csrs[MSTATUS as usize] & SSTATUS_MASK_LOW
        } else if csr == SIE {
            self.csrs[MIE as usize] & self.csrs[MIDELEG as usize]
        } else if csr == SIP {
            self.csrs[MIP as usize] & self.csrs[MIDELEG as usize]
        } else {
            self.csrs[csr as usize]
        }
    }
}

/// The instruction type of the Zicsr extension.
#[derive(Debug, Clone, Copy, PartialEq, Eq, Structural)]
#[allow(non_camel_case_types)]
#[allow(missing_docs)]
pub enum Instruction {
    CSRRW(IType),
    CSRRS(IType),
    CSRRC(IType),
    CSRRWI(IType),
    CSRRSI(IType),
    CSRRCI(IType),
    URET(RType),
    SRET(RType),
    MRET(RType),
    WFI(RType),
    SFENCE_VMA(RType),
}

impl Instruction {
    /// Register and immediate fields are in range, and the operand
    /// fields that an encoding fixes carry their required values.
    pub open spec fn wf(self) -> bool {
        match self {
            Instruction::CSRRW(ty) => ty.wf(),
            Instruction::CSRRS(ty) => ty.wf(),
            Instruction::CSRRC(ty) => ty.wf(),
            Instruction::CSRRWI(ty) => ty.wf(),
            Instruction::CSRRSI(ty) => ty.wf(),
            Instruction::CSRRCI(ty) => ty.wf(),
            Instruction::URET(ty) => ty.wf() && ty.rs2.0 == 0b00010,
            Instruction::SRET(ty) => ty.wf() && ty.rs2.0 == 0b00010,
            Instruction::MRET(ty) => ty.wf() && ty.rs2.0 == 0b00010,
            Instruction::WFI(ty) => ty.wf() && ty.rs2.0 == 0b00101,
            Instruction::SFENCE_VMA(ty) => ty.wf() && ty.rs2.0 != 0b00010,
        }
    }

    /// The length in bytes of this instruction's encoding.
    pub fn len(&self) -> (r: u32)
        ensures
            r == 4,
    {
        4
    }
}

/// The specification-level Zicsr decoder: the instruction denoted by a
/// raw 32-bit word, or `None` for an unknown encoding.
pub open spec fn spec_parse(inst: u32) -> Option<Instruction> {
    if inst & 0x7F != 0b111_0011 {
        None
    } else {
        let funct3 = spec_parse_i(inst).0;
        let ty = spec_parse_i(inst).1;
        if funct3 == 0b001 {
            Some(Instruction::CSRRW(ty))
        } else if funct3 == 0b010 {
            Some(Instruction::CSRRS(ty))
        } else if funct3 == 0b011 {
            Some(Instruction::CSRRC(ty))
        } else if funct3 == 0b101 {
            Some(Instruction::CSRRWI(ty))
        } else if funct3 == 0b110 {
            Some(Instruction::CSRRSI(ty))
        } else if funct3 == 0b111 {
            Some(Instruction::CSRRCI(ty))
        } else if funct3 == 0b000 {
            let funct7 = spec_parse_r(inst).1;
            let rty = spec_parse_r(inst).2;
            if rty.rs2.0 == 0b00010 {
                if funct7 == 0b0000000 {
                    Some(Instruction::URET(rty))
                } else if funct7 == 0b0001000 {
                    Some(Instruction::SRET(rty))
                } else if funct7 == 0b0011000 {
                    Some(Instruction::MRET(rty))
                } else {
                    None
                }
            } else if rty.rs2.0 == 0b00101 && funct7 == 0b0001000 {
                Some(Instruction::WFI(rty))
            } else if funct7 == 0b0001001 {
                Some(Instruction::SFENCE_VMA(rty))
            } else {
                None
            }
        } else {
            None
        }
    }
}

/// Top level function for parsing a Zicsr instruction.
pub fn parse(inst: u32) -> (r: Option<Instruction>)
    ensures
        r == spec_parse(inst),
        r matches Some(i) ==> i.wf(),
{
    if inst & 0x7F != 0b111_0011 {
        return None;
    }
    let (funct3, ty) = IType::parse(inst);
    if funct3 == 0b001 {
        Some(Instruction::CSRRW(ty))
    } else if funct3 == 0b010 {
        Some(Instruction::CSRRS(ty))
    } else if funct3 == 0b011 {
        Some(Instruction::CSRRC(ty))
    } else if funct3 == 0b101 {
        Some(Instruction::CSRRWI(ty))
    } else if funct3 == 0b110 {
        Some(Instruction::CSRRSI(ty))
    } else if funct3 == 0b111 {
        Some(Instruction::CSRRCI(ty))
    } else if funct3 == 0b000 {
        let (_funct3r, funct7, rty) = RType::parse(inst);
        if rty.rs2.0 == 0b00010 {
            if funct7 == 0b0000000 {
                Some(Instruction::URET(rty))
            } else if funct7 == 0b0001000 {
                Some(Instruction::SRET(rty))
            } else if funct7 == 0b0011000 {
                Some(Instruction::MRET(rty))
            } else {
                None
            }
        } else if rty.rs2.0 == 0b00101 && funct7 == 0b0001000 {
            Some(Instruction::WFI(rty))
        } else if funct7 == 0b0001001 {
            Some(Instruction::SFENCE_VMA(rty))
        } else {
            None
        }
    } else {
        None
    }
}


/// How a CSR instruction combines its source operand with the old CSR
/// value.
#[derive(Debug, Clone, Copy, PartialEq, Eq, Structural)]
pub enum CsrOp {
    /// Replace the CSR with the source.
    Write,
    /// Set the source's bits in the CSR.
    SetBits,
    /// Clear the source's bits in the CSR.
    ClearBits,
}

/// The new CSR value a CSR instruction computes from its source
/// operand and the old CSR value.
pub open spec fn spec_csr_new(kind: CsrOp, src: u32, old_v: u32) -> u32 {
    match kind {
        CsrOp::Write => src,
        CsrOp::SetBits => src | old_v,
        CsrOp::ClearBits => old_v & !src,
    }
}

/// The effect of one CSR read-modify-write instruction: read the CSR
/// (or fault), combine, write back when `write` holds (or fault), and
/// store the old value into `rd`.
pub open spec fn spec_csr_inst(s: CpuState, ty: IType, src: u32, write: bool, kind: CsrOp) -> (
    CpuState,
    core::result::Result<Continuation, Exception>,
) {
    match spec_read_csr(s.csrs, ty.val as u16, s.mode) {
        Err(e) => (s, Err(e)),
        Ok(old_v) => {
            let new = spec_csr_new(kind, src, old_v);
            if write {
                match spec_write_csr(s.csrs, ty.val as u16, new, s.mode) {
                    Err(e) => (s, Err(e)),
                    Ok(c2) => (
                        upd_reg(CpuState { csrs: c2, ..s }, ty.rd, old_v),
                        Ok(Continuation::Next),
                    ),
                }
            } else {
                (upd_reg(s, ty.rd, old_v), Ok(Continuation::Next))
            }
        },
    }
}

/// The `mstatus` value after an MRET pops the privilege stack: MIE is
/// loaded from MPIE, MPIE is set, and MPP is cleared to U-mode.
pub open spec fn spec_mret_status(status: u32) -> u32 {
    let st1 = if status & 0x80 != 0 {
        status | 0x8
    } else {
        status & !0x8
    };
    (st1 | 0x80) & !0x1800
}

/// The `mstatus` value after an SRET pops the privilege stack: SIE is
/// loaded from SPIE, SPIE is set, and SPP is cleared to U-mode.
pub open spec fn spec_sret_status(status: u32) -> u32 {
    let st1 = if status & 0x20 != 0 {
        status | 0x2
    } else {
        status & !0x2
    };
    (st1 | 0x20) & !0x100
}

/// The specification-level interpreter for the Zicsr extension: the
/// state and outcome produced by executing `inst` from state `s`.
pub open spec fn spec_exec(inst: Instruction, s: CpuState) -> (CpuState, core::result::Result<
    Continuation,
    Exception,
>) {
    match inst {
        Instruction::CSRRW(ty) => spec_csr_inst(s, ty, reg(s, ty.rs), true, CsrOp::Write),
        Instruction::CSRRS(ty) => spec_csr_inst(s, ty, reg(s, ty.rs), ty.rs.0 != 0, CsrOp::SetBits),
        Instruction::CSRRC(ty) => spec_csr_inst(s, ty, reg(s, ty.rs), ty.rs.0 != 0, CsrOp::ClearBits),
        Instruction::CSRRWI(ty) => spec_csr_inst(s, ty, ty.rs.0 as u32, true, CsrOp::Write),
        Instruction::CSRRSI(ty) => spec_csr_inst(s, ty, ty.rs.0 as u32, ty.rs.0 != 0, CsrOp::SetBits),
        Instruction::CSRRCI(ty) => spec_csr_inst(
            s,
            ty,
            ty.rs.0 as u32,
            ty.rs.0 != 0,
            CsrOp::ClearBits,
        ),
        Instruction::WFI(_) => (s, Ok(Continuation::WaitForInterrupt)),
        Instruction::MRET(_) => {
            if s.mode != PrivilegeMode::Machine {
                (s, Err(Exception::IllegalInstruction(0)))
            } else {
                match spec_read_csr(s.csrs, MEPC, PrivilegeMode::Machine) {
                    Err(e) => (s, Err(e)),
                    Ok(new_pc) => match spec_read_csr(s.csrs, MSTATUS, PrivilegeMode::Machine) {
                        Err(e) => (s, Err(e)),
                        Ok(status) => {
                            let mpp = (status >> 11) & 0b11;
                            match spec_write_csr(
                                s.csrs,
                                MSTATUS,
                                spec_mret_status(status),
                                PrivilegeMode::Machine,
                            ) {
                                Err(e) => (s, Err(e)),
                                Ok(c2) => (
                                    CpuState {
                                        csrs: c2,
                                        pc: new_pc,
                                        mode: spec_from_bits(mpp as u8),
                                        ..s
                                    },
                                    Ok(Continuation::Jump),
                                ),
                            }
                        },
                    },
                }
            }
        },
        Instruction::SRET(_) => {
            let req_prv = if spec_force_read(s.csrs, MSTATUS) & 0x40_0000 != 0 {
                PrivilegeMode::Machine
            } else {
                PrivilegeMode::Supervisor
            };
            if !s.mode.spec_can_access(req_prv) {
                (s, Err(Exception::IllegalInstruction(0)))
            } else {
                match spec_read_csr(s.csrs, SEPC, PrivilegeMode::Supervisor) {
                    Err(e) => (s, Err(e)),
                    Ok(new_pc) => {
                        let status = spec_force_read(s.csrs, MSTATUS);
                        let spp: u8 = if status & 0x100 != 0 {
                            1
                        } else {
                            0
                        };
                        let c2 = spec_force_write(s.csrs, MSTATUS, spec_sret_status(status));
                        (
                            CpuState { csrs: c2, pc: new_pc, mode: spec_from_bits(spp), ..s },
                            Ok(Continuation::Jump),
                        )
                    },
                }
            }
        },
        Instruction::SFENCE_VMA(_) => {
            if s.mode == PrivilegeMode::Supervisor && spec_force_read(s.csrs, MSTATUS) & 0x10_0000
                != 0 {
                (s, Err(Exception::IllegalInstruction(0)))
            } else {
                (s, Ok(Continuation::Next))
            }
        },
        Instruction::URET(_) => (s, Err(Exception::IllegalInstruction(0))),
    }
}

/// Execute one CSR read-modify-write instruction.
fn csr_inst(cpu: &mut Cpu, op: IType, src: u32, write: bool, kind: CsrOp) -> (r: core::result::Result<
    Continuation,
    Exception,
>)
    requires
        old(cpu).wf(),
        op.wf(),
    ensures
        final(cpu).wf(),
        ({
            let p = spec_csr_inst(old(cpu)@, op, src, write, kind);
            final(cpu)@ == p.0 && r == p.1
        }),
{
    let csr = match CsrAddress::try_new(op.val as usize) {
        Some(c) => c,
        None => {
            return Err(Exception::IllegalInstruction(0));
        },
    };
    let mode = cpu.mode;
    let old_v = match cpu.arch.zicsr.read_csr(csr, mode) {
        Ok(a) => a.value() as u32,
        Err(e) => {
            return Err(e);
        },
    };
    let new = match kind {
        CsrOp::Write => src,
        CsrOp::SetBits => src | old_v,
        CsrOp::ClearBits => old_v & !src,
    };
    if write {
        match cpu.arch.zicsr.write_csr(csr, Address(new as u64), mode) {
            Ok(_) => {},
            Err(e) => {
                return Err(e);
            },
        }
        proof {
            assert(cpu@ =~= (CpuState {
                csrs: spec_write_csr(old(cpu)@.csrs, op.val as u16, new, old(cpu)@.mode)->Ok_0,
                ..old(cpu)@
            }));
        }
    }
    write_rd(cpu, op.rd, old_v);
    Ok(Continuation::Next)
}

/// Execute a Zicsr instruction on the given cpu.
///
/// The outcome and the new hart state are exactly those of the
/// specification-level interpreter [`spec_exec`].
#[verifier::rlimit(50)]
pub fn exec(inst: Instruction, cpu: &mut Cpu) -> (r: core::result::Result<
    Continuation,
    Exception,
>)
    requires
        old(cpu).wf(),
        inst.wf(),
    ensures
        final(cpu).wf(),
        ({
            let p = spec_exec(inst, old(cpu)@);
            final(cpu)@ == p.0 && r == p.1
        }),
        r == Ok::<Continuation, Exception>(Continuation::Jump) && old(cpu)@.csrs[MEPC as int] & 3
            == 0 && old(cpu)@.csrs[SEPC as int] & 3 == 0 ==> final(cpu)@.pc & 3 == 0,
        r != Ok::<Continuation, Exception>(Continuation::Jump) ==> final(cpu)@.pc == old(cpu)@.pc,
{
    match inst {
        Instruction::CSRRW(op) => {
            let src = read_reg(cpu, op.rs);
            csr_inst(cpu, op, src, true, CsrOp::Write)
        },
        Instruction::CSRRS(op) => {
            let src = read_reg(cpu, op.rs);
            csr_inst(cpu, op, src, op.rs.0 != 0, CsrOp::SetBits)
        },
        Instruction::CSRRC(op) => {
            let src = read_reg(cpu, op.rs);
            csr_inst(cpu, op, src, op.rs.0 != 0, CsrOp::ClearBits)
        },
        Instruction::CSRRWI(op) => csr_inst(cpu, op, op.rs.0 as u32, true, CsrOp::Write),
        Instruction::CSRRSI(op) => csr_inst(cpu, op, op.rs.0 as u32, op.rs.0 != 0, CsrOp::SetBits),
        Instruction::CSRRCI(op) => csr_inst(cpu, op, op.rs.0 as u32, op.rs.0 != 0, CsrOp::ClearBits),
        // it's fine for WFI to report that the hart should idle
        Instruction::WFI(_) => Ok(Continuation::WaitForInterrupt),
        Instruction::MRET(_) => {
            if cpu.mode() != PrivilegeMode::Machine {
                return Err(Exception::IllegalInstruction(0));
            }
            let new_pc = match cpu.arch.zicsr.read_csr(CsrAddress(MEPC), PrivilegeMode::Machine) {
                Ok(a) => a,
                Err(e) => {
                    return Err(e);
                },
            };
            let status = match cpu.arch.zicsr.read_csr(
                CsrAddress(MSTATUS),
                PrivilegeMode::Machine,
            ) {
                Ok(a) => a.value() as u32,
                Err(e) => {
                    return Err(e);
                },
            };
            // extract the MPP field from `mstatus`
            let mpp = (status >> 11) & 0b11;
            // move MPIE into MIE, set MPIE, and drop MPP to U-mode
            let st1 = if status & 0x80 != 0 {
                status | 0x8
            } else {
                status & !0x8
            };
            let st3 = (st1 | 0x80) & !0x1800;
            match cpu.arch.zicsr.write_csr(
                CsrAddress(MSTATUS),
                Address(st3 as u64),
                PrivilegeMode::Machine,
            ) {
                Ok(_) => {},
                Err(e) => {
                    return Err(e);
                },
            }
            cpu.set_pc(new_pc);
            let mode = PrivilegeMode::from_bits_any(#[verifier::truncate] (mpp as u8));
            cpu.set_mode(mode);
            Ok(Continuation::Jump)
        },
        Instruction::SRET(_) => {
            // get the required privilege mode for executing this instruction
            let tsr = cpu.arch.zicsr.force_read_u32(MSTATUS) & 0x40_0000 != 0;
            let req_prv = if tsr {
                PrivilegeMode::Machine
            } else {
                PrivilegeMode::Supervisor
            };
            if !cpu.mode().can_access(req_prv) {
                return Err(Exception::IllegalInstruction(0));
            }
            let new_pc = match cpu.arch.zicsr.read_csr(
                CsrAddress(SEPC),
                PrivilegeMode::Supervisor,
            ) {
                Ok(a) => a,
                Err(e) => {
                    return Err(e);
                },
            };
            let status = cpu.arch.zicsr.force_read_u32(MSTATUS);
            // extract the SPP field from `mstatus`
            let spp: u8 = if status & 0x100 != 0 {
                1
            } else {
                0
            };
            // move SPIE into SIE, set SPIE, and drop SPP to U-mode
            let st1 = if status & 0x20 != 0 {
                status | 0x2
            } else {
                status & !0x2
            };
            let st3 = (st1 | 0x20) & !0x100;
            cpu.arch.zicsr.force_write_csr(CsrAddress(MSTATUS), Address(st3 as u64));
            cpu.set_pc(new_pc);
            let mode = PrivilegeMode::from_bits_any(spp);
            cpu.set_mode(mode);
            Ok(Continuation::Jump)
        },
        Instruction::SFENCE_VMA(_) => {
            // trap when TVM=1 and executing in S-mode
            if cpu.mode() == PrivilegeMode::Supervisor {
                let tvm = cpu.arch.zicsr.force_read_u32(MSTATUS) & 0x10_0000 != 0;
                if tvm {
                    return Err(Exception::IllegalInstruction(0));
                }
            }
            // address translation is re-walked on every access, so the
            // fence itself has nothing to flush
            Ok(Continuation::Next)
        },
        // the N extension is not implemented, so URET is not a legal
        // instruction on this hart
        Instruction::URET(_) => Err(Exception::IllegalInstruction(0)),
    }
}

/// The `xSTATUS` stacking law for MRET: executing MRET in M-mode moves
/// the hart to the mode held in `mstatus.MPP`, clears MPP to U-mode,
/// sets MPIE, loads MIE from the MPIE observed before the instruction,
/// and jumps to `mepc`.
pub proof fn lemma_mret_stacking(s: CpuState, ty: RType)
    requires
        s.mode == PrivilegeMode::Machine,
        s.csrs.len() == CSR_COUNT,
    ensures
        ({
            let status = s.csrs[MSTATUS as int];
            let p = spec_exec(Instruction::MRET(ty), s);
            &&& p.1 == Ok::<Continuation, Exception>(Continuation::Jump)
            &&& p.0.mode == spec_from_bits(((status >> 11) & 0b11) as u8)
            &&& p.0.pc == s.csrs[MEPC as int]
            &&& (p.0.csrs[MSTATUS as int] >> 11) & 0b11 == 0
            &&& p.0.csrs[MSTATUS as int] & 0x80 != 0
            &&& (p.0.csrs[MSTATUS as int] & 0x8 != 0) == (status & 0x80 != 0)
            &&& p.0.regs == s.regs
            &&& p.0.mem == s.mem
        }),
{
    lemma_csr_const_access();
    let status = s.csrs[MSTATUS as int];
    lemma_mret_status_bits(status);
}

/// The privilege and read-only classification of the handful of CSR
/// numbers the return-from-trap instructions touch.
proof fn lemma_csr_const_access()
    by (bit_vector)
    ensures
        (0x341u16 >> 8) & 3 == 3,
        (0x300u16 >> 8) & 3 == 3,
        (0x141u16 >> 8) & 3 == 1,
        0x341u16 >> 10 == 0,
        0x300u16 >> 10 == 0,
        0x141u16 >> 10 == 0,
{
}

/// The bit-level effect of the MRET status update.
proof fn lemma_mret_status_bits(status: u32)
    by (bit_vector)
    ensures
        ({
            let st1 = if status & 0x80 != 0 {
                status | 0x8
            } else {
                status & !0x8
            };
            let st3 = (st1 | 0x80) & !0x1800;
            &&& (st3 >> 11) & 0b11 == 0
            &&& st3 & 0x80 != 0
            &&& ((st3 & 0x8 != 0) == (status & 0x80 != 0))
        }),
{
}


/// The canonical encoding of a Zicsr instruction, as an assembler
/// would emit it: the CSR instructions are I-format words and the
/// return/fence instructions are R-format words, all under the system
/// opcode.
pub open spec fn encode(i: Instruction) -> u32 {
    match i {
        Instruction::CSRRW(ty) => crate::extensions::rv32i::parse::enc_i(0b111_0011, 0b001, ty),
        Instruction::CSRRS(ty) => crate::extensions::rv32i::parse::enc_i(0b111_0011, 0b010, ty),
        Instruction::CSRRC(ty) => crate::extensions::rv32i::parse::enc_i(0b111_0011, 0b011, ty),
        Instruction::CSRRWI(ty) => crate::extensions::rv32i::parse::enc_i(0b111_0011, 0b101, ty),
        Instruction::CSRRSI(ty) => crate::extensions::rv32i::parse::enc_i(0b111_0011, 0b110, ty),
        Instruction::CSRRCI(ty) => crate::extensions::rv32i::parse::enc_i(0b111_0011, 0b111, ty),
        Instruction::URET(ty) => crate::extensions::rv32i::parse::enc_r(
            0b111_0011,
            0b000,
            0b0000000,
            ty,
        ),
        Instruction::SRET(ty) => crate::extensions::rv32i::parse::enc_r(
            0b111_0011,
            0b000,
            0b0001000,
            ty,
        ),
        Instruction::MRET(ty) => crate::extensions::rv32i::parse::enc_r(
            0b111_0011,
            0b000,
            0b0011000,
            ty,
        ),
        Instruction::WFI(ty) => crate::extensions::rv32i::parse::enc_r(
            0b111_0011,
            0b000,
            0b0001000,
            ty,
        ),
        Instruction::SFENCE_VMA(ty) => crate::extensions::rv32i::parse::enc_r(
            0b111_0011,
            0b000,
            0b0001001,
            ty,
        ),
    }
}

/// The Zicsr decoder is total on the encodings an assembler can
/// produce: decoding the canonical encoding of any well-formed Zicsr
/// instruction yields that instruction back.
pub proof fn lemma_parse_encode(i: Instruction)
    requires
        i.wf(),
    ensures
        spec_parse(encode(i)) == Some(i),
{
    let w = encode(i);
    match i {
        Instruction::CSRRW(ty) => {
            crate::extensions::rv32i::parse::lemma_enc_i(
                w,
                0b111_0011,
                0b001,
                ty.rd.0,
                ty.rs.0,
                ty.val,
            );
        },
        Instruction::CSRRS(ty) => {
            crate::extensions::rv32i::parse::lemma_enc_i(
                w,
                0b111_0011,
                0b010,
                ty.rd.0,
                ty.rs.0,
                ty.val,
            );
        },
        Instruction::CSRRC(ty) => {
            crate::extensions::rv32i::parse::lemma_enc_i(
                w,
                0b111_0011,
                0b011,
                ty.rd.0,
                ty.rs.0,
                ty.val,
            );
        },
        Instruction::CSRRWI(ty) => {
            crate::extensions::rv32i::parse::lemma_enc_i(
                w,
                0b111_0011,
                0b101,
                ty.rd.0,
                ty.rs.0,
                ty.val,
            );
        },
        Instruction::CSRRSI(ty) => {
            crate::extensions::rv32i::parse::lemma_enc_i(
                w,
                0b111_0011,
                0b110,
                ty.rd.0,
                ty.rs.0,
                ty.val,
            );
        },
        Instruction::CSRRCI(ty) => {
            crate::extensions::rv32i::parse::lemma_enc_i(
                w,
                0b111_0011,
                0b111,
                ty.rd.0,
                ty.rs.0,
                ty.val,
            );
        },
        Instruction::URET(ty) => {
            crate::extensions::rv32i::parse::lemma_enc_r(
                w,
                0b111_0011,
                0b000,
                0b0000000,
                ty.rd.0,
                ty.rs1.0,
                ty.rs2.0,
            );
        },
        Instruction::SRET(ty) => {
            crate::extensions::rv32i::parse::lemma_enc_r(
                w,
                0b111_0011,
                0b000,
                0b0001000,
                ty.rd.0,
                ty.rs1.0,
                ty.rs2.0,
            );
        },
        Instruction::MRET(ty) => {
            crate::extensions::rv32i::parse::lemma_enc_r(
                w,
                0b111_0011,
                0b000,
                0b0011000,
                ty.rd.0,
                ty.rs1.0,
                ty.rs2.0,
            );
        },
        Instruction::WFI(ty) => {
            crate::extensions::rv32i::parse::lemma_enc_r(
                w,
                0b111_0011,
                0b000,
                0b0001000,
                ty.rd.0,
                ty.rs1.0,
                ty.rs2.0,
            );
        },
        Instruction::SFENCE_VMA(ty) => {
            crate::extensions::rv32i::parse::lemma_enc_r(
                w,
                0b111_0011,
                0b000,
                0b0001001,
                ty.rd.0,
                ty.rs1.0,
                ty.rs2.0,
            );
        },
    }
}

} // verus!
