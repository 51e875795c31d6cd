//! Implementation of the RV32I base extension: the register file, the
//! instruction variants, their decoder and their executor.

use vstd::prelude::*;

use crate::Address;

pub mod exec;
pub mod parse;

pub use exec::exec;
pub use parse::parse;

pub use crate::instruction::{BType, IType, InstructionType, JType, RType, Register, SType, UType};

verus! {

/// The RV32I base extension: thirty-two XLEN-wide registers and the
/// program counter.
#[derive(Debug, Clone)]
pub struct Extension {
    /// The registers `x0..x31`; index 0 is pinned to zero.
    pub registers: Vec<u32>,
    /// The program counter.
    pub pc: u32,
}

impl Extension {
    /// The register file holds exactly 32 registers and `x0` reads zero.
    pub open spec fn wf(self) -> bool {
        self.registers@.len() == 32 && self.registers@[0] == 0
    }

    /// Create a new RV32I extension, that uses 32-bit wide registers.
    pub fn new_32bit() -> (r: Self)
        ensures
            r.wf(),
            r.pc == 0,
            forall|i: int| 0 <= i < 32 ==> r.registers@[i] == 0,
    {
        let mut registers: Vec<u32> = Vec::new();
        let mut i: usize = 0;
        while i < 32
            invariant
                i <= 32,
                registers@.len() == i,
                forall|j: int| 0 <= j < i ==> registers@[j] == 0,
            decreases 32 - i,
        {
            registers.push(0);
            i = i + 1;
        }
        Extension { registers, pc: 0 }
    }

    /// Read the given register out of this extension.
    ///
    /// Reads of `x0` always return zero.
    pub fn read_register(&self, reg: Register) -> (r: Address)
        requires
            self.wf(),
            reg.wf(),
        ensures
            r.0 == self.registers@[reg.0 as int] as u64,
            reg.0 == 0 ==> r.0 == 0,
    {
        Address(self.registers[reg.0 as usize] as u64)
    }

    /// Write the given value into `reg`.
    ///
    /// Writes to `x0` are silently discarded; other registers receive
    /// the value truncated to the 32-bit register width.
    pub fn write_register(&mut self, reg: Register, x: Address)
        requires
            old(self).wf(),
            reg.wf(),
        ensures
            final(self).wf(),
            final(self).pc == old(self).pc,
            reg.0 == 0 ==> final(self).registers@ == old(self).registers@,
            reg.0 != 0 ==> final(self).registers@ == old(self).registers@.update(
                reg.0 as int,
                x.0 as u32,
            ),
    {
        if reg.0 != 0 {
            self.registers.set(reg.0 as usize, x.0 as u32);
        }
    }

    /// Read the current program counter.
    pub fn get_pc(&self) -> (r: Address)
        ensures
            r.0 == self.pc as u64,
    {
        Address(self.pc as u64)
    }

    /// Replace the program counter, truncating to the register width.
    pub fn set_pc(&mut self, pc: Address)
        ensures
            final(self).pc == pc.0 as u32,
            final(self).registers == old(self).registers,
    {
        self.pc = pc.0 as u32;
    }
}

/// The instruction type of the RV32I base extension.
#[derive(Debug, Clone, Copy, PartialEq, Eq, Structural)]
#[allow(missing_docs)]
pub enum Instruction {
    LUI(UType),
    AUIPC(UType),

    JAL(JType),
    JALR(IType),

    BEQ(BType),
    BNE(BType),
    BLT(BType),
    BGE(BType),
    BLTU(BType),
    BGEU(BType),

    LB(IType),
    LH(IType),
    LW(IType),
    LBU(IType),
    LHU(IType),

    SB(SType),
    SH(SType),
    SW(SType),

    ADDI(IType),
    SLTI(IType),
    SLTIU(IType),
    XORI(IType),
    ORI(IType),
    ANDI(IType),
    SLLI(IType),
    SRLI(IType),
    SRAI(IType),

    ADD(RType),
    SUB(RType),
    SLL(RType),
    SLT(RType),
    SLTU(RType),
    XOR(RType),
    SRL(RType),
    SRA(RType),
    OR(RType),
    AND(RType),

    FENCE(IType),
    FENCEI(IType),
    ECALL(IType),
    EBREAK(IType),
}

impl Instruction {
    /// A well-formed instruction is one that an RV32I assembler can
    /// produce: register indices are in range, immediates fit their
    /// encoded fields, and fixed fields carry their required values.
    pub open spec fn wf(self) -> bool {
        match self {
            Instruction::LUI(ty) => ty.wf(),
            Instruction::AUIPC(ty) => ty.wf(),
            Instruction::JAL(ty) => ty.wf(),
            Instruction::JALR(ty) => ty.wf(),
            Instruction::BEQ(ty) => ty.wf(),
            Instruction::BNE(ty) => ty.wf(),
            Instruction::BLT(ty) => ty.wf(),
            Instruction::BGE(ty) => ty.wf(),
            Instruction::BLTU(ty) => ty.wf(),
            Instruction::BGEU(ty) => ty.wf(),
            Instruction::LB(ty) => ty.wf(),
            Instruction::LH(ty) => ty.wf(),
            Instruction::LW(ty) => ty.wf(),
            Instruction::LBU(ty) => ty.wf(),
            Instruction::LHU(ty) => ty.wf(),
            Instruction::SB(ty) => ty.wf(),
            Instruction::SH(ty) => ty.wf(),
            Instruction::SW(ty) => ty.wf(),
            Instruction::ADDI(ty) => ty.wf(),
            Instruction::SLTI(ty) => ty.wf(),
            Instruction::SLTIU(ty) => ty.wf(),
            Instruction::XORI(ty) => ty.wf(),
            Instruction::ORI(ty) => ty.wf(),
            Instruction::ANDI(ty) => ty.wf(),
            Instruction::SLLI(ty) => ty.wf(),
            Instruction::SRLI(ty) => ty.wf() && ty.val & 0x400 == 0,
            Instruction::SRAI(ty) => ty.wf() && ty.val & 0x400 == 0,
            Instruction::ADD(ty) => ty.wf(),
            Instruction::SUB(ty) => ty.wf(),
            Instruction::SLL(ty) => ty.wf(),
            Instruction::SLT(ty) => ty.wf(),
            Instruction::SLTU(ty) => ty.wf(),
            Instruction::XOR(ty) => ty.wf(),
            Instruction::SRL(ty) => ty.wf(),
            Instruction::SRA(ty) => ty.wf(),
            Instruction::OR(ty) => ty.wf(),
            Instruction::AND(ty) => ty.wf(),
            Instruction::FENCE(ty) => ty.wf(),
            Instruction::FENCEI(ty) => ty.wf(),
            Instruction::ECALL(ty) => ty == (IType { val: 0, rd: Register(0), rs: Register(0) }),
            Instruction::EBREAK(ty) => ty == (IType { val: 1, rd: Register(0), rs: Register(0) }),
        }
    }

    /// The length in bytes of this instruction's encoding.
    pub fn len(&self) -> (r: u32)
        ensures
            r == 4,
    {
        4
    }
}

} // verus!
