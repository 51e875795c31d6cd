//! Textual rendering of registers, operands and instructions, as an
//! assembler listing would show them.

use vstd::prelude::*;
use vstd::string::StringExecFns;

use super::{BType, IType, JType, RType, Register, SType, UType};
use crate::bits::{sext12, sext13, sext21};
use crate::extensions::{rv32i, zicsr};

verus! {

/// The ABI name of the register `x[i]`.
pub open spec fn spec_reg_name(i: u8) -> Seq<char> {
    if i == 0 {
        "zero"@
    } else if i == 1 {
        "ra"@
    } else if i == 2 {
        "sp"@
    } else if i == 3 {
        "gp"@
    } else if i == 4 {
        "tp"@
    } else if i == 5 {
        "t0"@
    } else if i == 6 {
        "t1"@
    } else if i == 7 {
        "t2"@
    } else if i == 8 {
        "s0"@
    } else if i == 9 {
        "s1"@
    } else if i == 10 {
        "a0"@
    } else if i == 11 {
        "a1"@
    } else if i == 12 {
        "a2"@
    } else if i == 13 {
        "a3"@
    } else if i == 14 {
        "a4"@
    } else if i == 15 {
        "a5"@
    } else if i == 16 {
        "a6"@
    } else if i == 17 {
        "a7"@
    } else if i == 18 {
        "s2"@
    } else if i == 19 {
        "s3"@
    } else if i == 20 {
        "s4"@
    } else if i == 21 {
        "s5"@
    } else if i == 22 {
        "s6"@
    } else if i == 23 {
        "s7"@
    } else if i == 24 {
        "s8"@
    } else if i == 25 {
        "s9"@
    } else if i == 26 {
        "s10"@
    } else if i == 27 {
        "s11"@
    } else if i == 28 {
        "t3"@
    } else if i == 29 {
        "t4"@
    } else if i == 30 {
        "t5"@
    } else if i == 31 {
        "t6"@
    } else {
        Seq::<char>::empty()
    }
}

/// The decimal digit `d` as text.
pub open spec fn spec_dec_digit(d: nat) -> Seq<char> {
    if d == 0 {
        "0"@
    } else if d == 1 {
        "1"@
    } else if d == 2 {
        "2"@
    } else if d == 3 {
        "3"@
    } else if d == 4 {
        "4"@
    } else if d == 5 {
        "5"@
    } else if d == 6 {
        "6"@
    } else if d == 7 {
        "7"@
    } else if d == 8 {
        "8"@
    } else {
        "9"@
    }
}

/// The decimal rendering of a natural number.
pub open spec fn spec_dec_nat(n: nat) -> Seq<char>
    decreases n,
{
    if n < 10 {
        spec_dec_digit(n)
    } else {
        spec_dec_nat(n / 10) + spec_dec_digit(n % 10)
    }
}

/// The decimal rendering of an integer, with a leading minus sign when
/// it is negative.
pub open spec fn spec_dec_int(v: int) -> Seq<char> {
    if v < 0 {
        "-"@ + spec_dec_nat((-v) as nat)
    } else {
        spec_dec_nat(v as nat)
    }
}

impl Register {
    /// The ABI name of this register.
    pub fn name(self) -> (s: &'static str)
        requires
            self.wf(),
        ensures
            s@ == spec_reg_name(self.0),
    {
        let i = self.0;
        if i == 0 {
            "zero"
        } else if i == 1 {
            "ra"
        } else if i == 2 {
            "sp"
        } else if i == 3 {
            "gp"
        } else if i == 4 {
            "tp"
        } else if i == 5 {
            "t0"
        } else if i == 6 {
            "t1"
        } else if i == 7 {
            "t2"
        } else if i == 8 {
            "s0"
        } else if i == 9 {
            "s1"
        } else if i == 10 {
            "a0"
        } else if i == 11 {
            "a1"
        } else if i == 12 {
            "a2"
        } else if i == 13 {
            "a3"
        } else if i == 14 {
            "a4"
        } else if i == 15 {
            "a5"
        } else if i == 16 {
            "a6"
        } else if i == 17 {
            "a7"
        } else if i == 18 {
            "s2"
        } else if i == 19 {
            "s3"
        } else if i == 20 {
            "s4"
        } else if i == 21 {
            "s5"
        } else if i == 22 {
            "s6"
        } else if i == 23 {
            "s7"
        } else if i == 24 {
            "s8"
        } else if i == 25 {
            "s9"
        } else if i == 26 {
            "s10"
        } else if i == 27 {
            "s11"
        } else if i == 28 {
            "t3"
        } else if i == 29 {
            "t4"
        } else if i == 30 {
            "t5"
        } else {
            "t6"
        }
    }
}

/// The decimal digit `d` as text.
fn dec_digit(d: u32) -> (s: &'static str)
    requires
        d < 10,
    ensures
        s@ == spec_dec_digit(d as nat),
{
    if d == 0 {
        "0"
    } else if d == 1 {
        "1"
    } else if d == 2 {
        "2"
    } else if d == 3 {
        "3"
    } else if d == 4 {
        "4"
    } else if d == 5 {
        "5"
    } else if d == 6 {
        "6"
    } else if d == 7 {
        "7"
    } else if d == 8 {
        "8"
    } else {
        "9"
    }
}

/// The decimal rendering of a 32-bit natural number.
fn dec_u32(n: u32) -> (s: String)
    ensures
        s@ == spec_dec_nat(n as nat),
    decreases n,
{
    if n < 10 {
        dec_digit(n).to_owned()
    } else {
        let mut s = dec_u32(n / 10);
        s.append(dec_digit(n % 10));
        s
    }
}

/// The decimal rendering of a signed 32-bit number.
fn dec_i32(v: i32) -> (s: String)
    ensures
        s@ == spec_dec_int(v as int),
{
    if v >= 0 {
        dec_u32(v as u32)
    } else {
        let mag = (-(v as i64)) as u32;
        let mut s = "-".to_owned();
        let digits = dec_u32(mag);
        s.append(digits.as_str());
        s
    }
}

/// The operand text of an R-format instruction: `rd, rs1, rs2`.
pub open spec fn spec_rtype_text(ty: RType) -> Seq<char> {
    spec_reg_name(ty.rd.0) + ", "@ + spec_reg_name(ty.rs1.0) + ", "@ + spec_reg_name(ty.rs2.0)
}

/// The operand text of an I-format instruction: `rd, rs, imm`.
pub open spec fn spec_itype_text(ty: IType) -> Seq<char> {
    spec_reg_name(ty.rd.0) + ", "@ + spec_reg_name(ty.rs.0) + ", "@ + spec_dec_int(
        (sext12(ty.val) as i32) as int,
    )
}

/// The operand text of an S-format instruction: `rs2, imm(rs1)`.
pub open spec fn spec_stype_text(ty: SType) -> Seq<char> {
    spec_reg_name(ty.rs2.0) + ", "@ + spec_dec_int((sext12(ty.val) as i32) as int) + "("@
        + spec_reg_name(ty.rs1.0) + ")"@
}

/// The operand text of a B-format instruction: `rs1, rs2, imm`.
pub open spec fn spec_btype_text(ty: BType) -> Seq<char> {
    spec_reg_name(ty.rs1.0) + ", "@ + spec_reg_name(ty.rs2.0) + ", "@ + spec_dec_int(
        (sext13(ty.val) as i32) as int,
    )
}

/// The operand text of a U-format instruction: `rd, imm`, with the
/// immediate shown in units of pages as assemblers write it.
pub open spec fn spec_utype_text(ty: UType) -> Seq<char> {
    spec_reg_name(ty.rd.0) + ", "@ + spec_dec_int((((ty.val as i32) >> 12) as i32) as int)
}

/// The operand text of a J-format instruction: `rd, imm`.
pub open spec fn spec_jtype_text(ty: JType) -> Seq<char> {
    spec_reg_name(ty.rd.0) + ", "@ + spec_dec_int((sext21(ty.val) as i32) as int)
}

impl RType {
    /// The operand text of this instruction: `rd, rs1, rs2`.
    pub fn text(&self) -> (s: String)
        requires
            self.wf(),
        ensures
            s@ == spec_rtype_text(*self),
    {
        let mut s = self.rd.name().to_owned();
        s.append(", ");
        s.append(self.rs1.name());
        s.append(", ");
        s.append(self.rs2.name());
        s
    }
}

impl IType {
    /// The operand text of this instruction: `rd, rs, imm`.
    pub fn text(&self) -> (s: String)
        requires
            self.wf(),
        ensures
            s@ == spec_itype_text(*self),
    {
        let mut s = self.rd.name().to_owned();
        s.append(", ");
        s.append(self.rs.name());
        s.append(", ");
        let imm = dec_i32(self.sign_imm());
        s.append(imm.as_str());
        s
    }
}

impl SType {
    /// The operand text of this instruction: `rs2, imm(rs1)`.
    pub fn text(&self) -> (s: String)
        requires
            self.wf(),
        ensures
            s@ == spec_stype_text(*self),
    {
        let mut s = self.rs2.name().to_owned();
        s.append(", ");
        let imm = dec_i32(self.sign_imm());
        s.append(imm.as_str());
        s.append("(");
        s.append(self.rs1.name());
        s.append(")");
        s
    }
}

impl BType {
    /// The operand text of this instruction: `rs1, rs2, imm`.
    pub fn text(&self) -> (s: String)
        requires
            self.wf(),
        ensures
            s@ == spec_btype_text(*self),
    {
        let mut s = self.rs1.name().to_owned();
        s.append(", ");
        s.append(self.rs2.name());
        s.append(", ");
        let imm = dec_i32(self.sign_imm());
        s.append(imm.as_str());
        s
    }
}

impl UType {
    /// The operand text of this instruction: `rd, imm`.
    pub fn text(&self) -> (s: String)
        requires
            self.wf(),
        ensures
            s@ == spec_utype_text(*self),
    {
        let mut s = self.rd.name().to_owned();
        s.append(", ");
        let imm = dec_i32(self.sign_val() >> 12);
        s.append(imm.as_str());
        s
    }
}

impl JType {
    /// The operand text of this instruction: `rd, imm`.
    pub fn text(&self) -> (s: String)
        requires
            self.wf(),
        ensures
            s@ == spec_jtype_text(*self),
    {
        let mut s = self.rd.name().to_owned();
        s.append(", ");
        let imm = dec_i32(self.sign_imm());
        s.append(imm.as_str());
        s
    }
}

/// The assembler text of an RV32I instruction.
pub open spec fn spec_rv32i_text(i: rv32i::Instruction) -> Seq<char> {
    match i {
        rv32i::Instruction::LUI(ty) => "lui "@ + spec_utype_text(ty),
        rv32i::Instruction::AUIPC(ty) => "auipc "@ + spec_utype_text(ty),
        rv32i::Instruction::JAL(ty) => "jal "@ + spec_jtype_text(ty),
        rv32i::Instruction::JALR(ty) => "jalr "@ + spec_itype_text(ty),
        rv32i::Instruction::BEQ(ty) => "beq "@ + spec_btype_text(ty),
        rv32i::Instruction::BNE(ty) => "bne "@ + spec_btype_text(ty),
        rv32i::Instruction::BLT(ty) => "blt "@ + spec_btype_text(ty),
        rv32i::Instruction::BGE(ty) => "bge "@ + spec_btype_text(ty),
        rv32i::Instruction::BLTU(ty) => "bltu "@ + spec_btype_text(ty),
        rv32i::Instruction::BGEU(ty) => "bgeu "@ + spec_btype_text(ty),
        rv32i::Instruction::LB(ty) => "lb "@ + spec_itype_text(ty),
        rv32i::Instruction::LH(ty) => "lh "@ + spec_itype_text(ty),
        rv32i::Instruction::LW(ty) => "lw "@ + spec_itype_text(ty),
        rv32i::Instruction::LBU(ty) => "lbu "@ + spec_itype_text(ty),
        rv32i::Instruction::LHU(ty) => "lhu "@ + spec_itype_text(ty),
        rv32i::Instruction::SB(ty) => "sb "@ + spec_stype_text(ty),
        rv32i::Instruction::SH(ty) => "sh "@ + spec_stype_text(ty),
        rv32i::Instruction::SW(ty) => "sw "@ + spec_stype_text(ty),
        rv32i::Instruction::ADDI(ty) => "addi "@ + spec_itype_text(ty),
        rv32i::Instruction::SLTI(ty) => "slti "@ + spec_itype_text(ty),
        rv32i::Instruction::SLTIU(ty) => "sltiu "@ + spec_itype_text(ty),
        rv32i::Instruction::XORI(ty) => "xori "@ + spec_itype_text(ty),
        rv32i::Instruction::ORI(ty) => "ori "@ + spec_itype_text(ty),
        rv32i::Instruction::ANDI(ty) => "andi "@ + spec_itype_text(ty),
        rv32i::Instruction::SLLI(ty) => "slli "@ + spec_itype_text(ty),
        rv32i::Instruction::SRLI(ty) => "srli "@ + spec_itype_text(ty),
        rv32i::Instruction::SRAI(ty) => "srai "@ + spec_itype_text(ty),
        rv32i::Instruction::ADD(ty) => "add "@ + spec_rtype_text(ty),
        rv32i::Instruction::SUB(ty) => "sub "@ + spec_rtype_text(ty),
        rv32i::Instruction::SLL(ty) => "sll "@ + spec_rtype_text(ty),
        rv32i::Instruction::SLT(ty) => "slt "@ + spec_rtype_text(ty),
        rv32i::Instruction::SLTU(ty) => "sltu "@ + spec_rtype_text(ty),
        rv32i::Instruction::XOR(ty) => "xor "@ + spec_rtype_text(ty),
        rv32i::Instruction::SRL(ty) => "srl "@ + spec_rtype_text(ty),
        rv32i::Instruction::SRA(ty) => "sra "@ + spec_rtype_text(ty),
        rv32i::Instruction::OR(ty) => "or "@ + spec_rtype_text(ty),
        rv32i::Instruction::AND(ty) => "and "@ + spec_rtype_text(ty),
        rv32i::Instruction::FENCE(_) => "fence"@,
        rv32i::Instruction::FENCEI(_) => "fence.i"@,
        rv32i::Instruction::ECALL(_) => "ecall"@,
        rv32i::Instruction::EBREAK(_) => "ebreak"@,
    }
}

impl rv32i::Instruction {
    /// The assembler text of this instruction.
    pub fn text(&self) -> (s: String)
        requires
            self.wf(),
        ensures
            s@ == spec_rv32i_text(*self),
    {
        match self {
            rv32i::Instruction::LUI(ty) => {
                let mut s = "lui ".to_owned();
                let ops = ty.text();
                s.append(ops.as_str());
                s
            },
            rv32i::Instruction::AUIPC(ty) => {
                let mut s = "auipc ".to_owned();
                let ops = ty.text();
                s.append(ops.as_str());
                s
            },
            rv32i::Instruction::JAL(ty) => {
                let mut s = "jal ".to_owned();
                let ops = ty.text();
                s.append(ops.as_str());
                s
            },
            rv32i::Instruction::JALR(ty) => {
                let mut s = "jalr ".to_owned();
                let ops = ty.text();
                s.append(ops.as_str());
                s
            },
            rv32i::Instruction::BEQ(ty) => {
                let mut s = "beq ".to_owned();
                let ops = ty.text();
                s.append(ops.as_str());
                s
            },
            rv32i::Instruction::BNE(ty) => {
                let mut s = "bne ".to_owned();
                let ops = ty.text();
                s.append(ops.as_str());
                s
            },
            rv32i::Instruction::BLT(ty) => {
                let mut s = "blt ".to_owned();
                let ops = ty.text();
                s.append(ops.as_str());
                s
            },
            rv32i::Instruction::BGE(ty) => {
                let mut s = "bge ".to_owned();
                let ops = ty.text();
                s.append(ops.as_str());
                s
            },
            rv32i::Instruction::BLTU(ty) => {
                let mut s = "bltu ".to_owned();
                let ops = ty.text();
                s.append(ops.as_str());
                s
            },
            rv32i::Instruction::BGEU(ty) => {
                let mut s = "bgeu ".to_owned();
                let ops = ty.text();
                s.append(ops.as_str());
                s
            },
            rv32i::Instruction::LB(ty) => {
                let mut s = "lb ".to_owned();
                let ops = ty.text();
                s.append(ops.as_str());
                s
            },
            rv32i::Instruction::LH(ty) => {
                let mut s = "lh ".to_owned();
                let ops = ty.text();
                s.append(ops.as_str());
                s
            },
            rv32i::Instruction::LW(ty) => {
                let mut s = "lw ".to_owned();
                let ops = ty.text();
                s.append(ops.as_str());
                s
            },
            rv32i::Instruction::LBU(ty) => {
                let mut s = "lbu ".to_owned();
                let ops = ty.text();
                s.append(ops.as_str());
                s
            },
            rv32i::Instruction::LHU(ty) => {
                let mut s = "lhu ".to_owned();
                let ops = ty.text();
                s.append(ops.as_str());
                s
            },
            rv32i::Instruction::SB(ty) => {
                let mut s = "sb ".to_owned();
                let ops = ty.text();
                s.append(ops.as_str());
                s
            },
            rv32i::Instruction::SH(ty) => {
                let mut s = "sh ".to_owned();
                let ops = ty.text();
                s.append(ops.as_str());
                s
            },
            rv32i::Instruction::SW(ty) => {
                let mut s = "sw ".to_owned();
                let ops = ty.text();
                s.append(ops.as_str());
                s
            },
            rv32i::Instruction::ADDI(ty) => {
                let mut s = "addi ".to_owned();
                let ops = ty.text();
                s.append(ops.as_str());
                s
            },
            rv32i::Instruction::SLTI(ty) => {
                let mut s = "slti ".to_owned();
                let ops = ty.text();
                s.append(ops.as_str());
                s
            },
            rv32i::Instruction::SLTIU(ty) => {
                let mut s = "sltiu ".to_owned();
                let ops = ty.text();
                s.append(ops.as_str());
                s
            },
            rv32i::Instruction::XORI(ty) => {
                let mut s = "xori ".to_owned();
                let ops = ty.text();
                s.append(ops.as_str());
                s
            },
            rv32i::Instruction::ORI(ty) => {
                let mut s = "ori ".to_owned();
                let ops = ty.text();
                s.append(ops.as_str());
                s
            },
            rv32i::Instruction::ANDI(ty) => {
                let mut s = "andi ".to_owned();
                let ops = ty.text();
                s.append(ops.as_str());
                s
            },
            rv32i::Instruction::SLLI(ty) => {
                let mut s = "slli ".to_owned();
                let ops = ty.text();
                s.append(ops.as_str());
                s
            },
            rv32i::Instruction::SRLI(ty) => {
                let mut s = "srli ".to_owned();
                let ops = ty.text();
                s.append(ops.as_str());
                s
            },
            rv32i::Instruction::SRAI(ty) => {
                let mut s = "srai ".to_owned();
                let ops = ty.text();
                s.append(ops.as_str());
                s
            },
            rv32i::Instruction::ADD(ty) => {
                let mut s = "add ".to_owned();
                let ops = ty.text();
                s.append(ops.as_str());
                s
            },
            rv32i::Instruction::SUB(ty) => {
                let mut s = "sub ".to_owned();
                let ops = ty.text();
                s.append(ops.as_str());
                s
            },
            rv32i::Instruction::SLL(ty) => {
                let mut s = "sll ".to_owned();
                let ops = ty.text();
                s.append(ops.as_str());
                s
            },
            rv32i::Instruction::SLT(ty) => {
                let mut s = "slt ".to_owned();
                let ops = ty.text();
                s.append(ops.as_str());
                s
            },
            rv32i::Instruction::SLTU(ty) => {
                let mut s = "sltu ".to_owned();
                let ops = ty.text();
                s.append(ops.as_str());
                s
            },
            rv32i::Instruction::XOR(ty) => {
                let mut s = "xor ".to_owned();
                let ops = ty.text();
                s.append(ops.as_str());
                s
            },
            rv32i::Instruction::SRL(ty) => {
                let mut s = "srl ".to_owned();
                let ops = ty.text();
                s.append(ops.as_str());
                s
            },
            rv32i::Instruction::SRA(ty) => {
                let mut s = "sra ".to_owned();
                let ops = ty.text();
                s.append(ops.as_str());
                s
            },
            rv32i::Instruction::OR(ty) => {
                let mut s = "or ".to_owned();
                let ops = ty.text();
                s.append(ops.as_str());
                s
            },
            rv32i::Instruction::AND(ty) => {
                let mut s = "and ".to_owned();
                let ops = ty.text();
                s.append(ops.as_str());
                s
            },
            rv32i::Instruction::FENCE(_) => "fence".to_owned(),
            rv32i::Instruction::FENCEI(_) => "fence.i".to_owned(),
            rv32i::Instruction::ECALL(_) => "ecall".to_owned(),
            rv32i::Instruction::EBREAK(_) => "ebreak".to_owned(),
        }
    }
}

/// The assembler text of a Zicsr instruction.
pub open spec fn spec_zicsr_text(i: zicsr::Instruction) -> Seq<char> {
    match i {
        zicsr::Instruction::CSRRW(ty) => "csrrw "@ + spec_itype_text(ty),
        zicsr::Instruction::CSRRS(ty) => "csrrs "@ + spec_itype_text(ty),
        zicsr::Instruction::CSRRC(ty) => "csrrc "@ + spec_itype_text(ty),
        zicsr::Instruction::CSRRWI(ty) => "csrrwi "@ + spec_itype_text(ty),
        zicsr::Instruction::CSRRSI(ty) => "csrrsi "@ + spec_itype_text(ty),
        zicsr::Instruction::CSRRCI(ty) => "csrrci "@ + spec_itype_text(ty),
        zicsr::Instruction::URET(_) => "uret"@,
        zicsr::Instruction::SRET(_) => "sret"@,
        zicsr::Instruction::MRET(_) => "mret"@,
        zicsr::Instruction::WFI(_) => "wfi"@,
        zicsr::Instruction::SFENCE_VMA(ty) => "sfence.vma "@ + spec_rtype_text(ty),
    }
}

impl zicsr::Instruction {
    /// The assembler text of this instruction.
    pub fn text(&self) -> (s: String)
        requires
            self.wf(),
        ensures
            s@ == spec_zicsr_text(*self),
    {
        match self {
            zicsr::Instruction::CSRRW(ty) => {
                let mut s = "csrrw ".to_owned();
                let ops = ty.text();
                s.append(ops.as_str());
                s
            },
            zicsr::Instruction::CSRRS(ty) => {
                let mut s = "csrrs ".to_owned();
                let ops = ty.text();
                s.append(ops.as_str());
                s
            },
            zicsr::Instruction::CSRRC(ty) => {
                let mut s = "csrrc ".to_owned();
                let ops = ty.text();
                s.append(ops.as_str());
                s
            },
            zicsr::Instruction::CSRRWI(ty) => {
                let mut s = "csrrwi ".to_owned();
                let ops = ty.text();
                s.append(ops.as_str());
                s
            },
            zicsr::Instruction::CSRRSI(ty) => {
                let mut s = "csrrsi ".to_owned();
                let ops = ty.text();
                s.append(ops.as_str());
                s
            },
            zicsr::Instruction::CSRRCI(ty) => {
                let mut s = "csrrci ".to_owned();
                let ops = ty.text();
                s.append(ops.as_str());
                s
            },
            zicsr::Instruction::URET(_) => "uret".to_owned(),
            zicsr::Instruction::SRET(_) => "sret".to_owned(),
            zicsr::Instruction::MRET(_) => "mret".to_owned(),
            zicsr::Instruction::WFI(_) => "wfi".to_owned(),
            zicsr::Instruction::SFENCE_VMA(ty) => {
                let mut s = "sfence.vma ".to_owned();
                let ops = ty.text();
                s.append(ops.as_str());
                s
            },
        }
    }
}

} // verus!
